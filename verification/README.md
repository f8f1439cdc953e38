# nude

Read-only Docker introspection for Nushell: a plugin that talks to the Docker
daemon and hands back typed, structured values instead of text.

This crate is the plugin's logic, written in Verus and proved against its
contracts:

- `src/` — the verified library: the typed cells every command emits
  (`value`), the field helpers (`helpers`), the output densities (`output`),
  the `--show-labels` decorator (`decorators`), the shared command scaffolding
  and filter requests (`scaffold`), argument completion (`completers`),
  string primitives (`text`), one module per command family under
  `commands/`, and the library-wide properties in `laws`.
- `tests/` — tests of the library on concrete values.
- `app/` — the plugin binary: it serves the commands to Nushell, calls the
  daemon through bollard, converts the daemon's payloads into the library's
  values and the library's rows into Nushell values.
