//! `nude plugin ls` / `nude plugin inspect` — list managed Docker plugins, or
//! inspect one by name.
//!
//! The list and inspect endpoints return the same plugin record, so wide just
//! projects more columns of it. Plugins carry **no label map**, so this
//! resource has neither a `--labels` filter nor the `--show-labels` decorator.

use vstd::prelude::*;

use crate::helpers::{as_deref, short_id, str_list, str_list_spec, str_opt, str_opt_spec};
use crate::text::take_at_most;
use crate::completers::{
    is_output_flag, output_flag_name, ref_and_output, ref_and_output_spec, ArgKind, ArgKindV,
    CompletionSource, Suggestion, SuggestionV,
};
use crate::output::OutputFormat;
use crate::scaffold::{
    inspect_flags_spec, inspect_signature, list_flags_of, list_signature, CommandSpec, FilterArg,
    docker_command, Shape, SignatureSpec,
};
use crate::text::str_eq;
use crate::value::{put, Cell, CellV, Rendering, RenderingV, Row, RowV, Scalar, ScalarV};

verus! {

/// `nude plugin ls`.
pub struct PluginLsCommand;

/// `nude plugin inspect`.
pub struct PluginInspectCommand;

/// A managed plugin as the daemon reports it.
pub struct Plugin {
    pub name: String,
    pub id: Option<String>,
    pub enabled: bool,
    pub plugin_reference: Option<String>,
    pub description: String,
    pub documentation: String,
    /// The interface types it provides.
    pub capabilities: Vec<String>,
    pub socket: String,
    pub entrypoint: Vec<String>,
    pub work_dir: String,
    /// The active settings' environment.
    pub env: Vec<String>,
    /// The active settings' arguments.
    pub args: Vec<String>,
}

pub open spec fn short_plugin_id(id: Option<Seq<char>>) -> Option<Seq<char>> {
    match id {
        Some(i) => Some(take_at_most(i, 12)),
        None => None,
    }
}

pub open spec fn plugin_head_spec(p: Plugin) -> RowV {
    seq![
        ("name"@, CellV::One(str_opt_spec(Some(p.name@)))),
        ("id"@, CellV::One(str_opt_spec(short_plugin_id(p.id.deep_view())))),
        ("enabled"@, CellV::One(ScalarV::Bool(p.enabled))),
        ("reference"@, CellV::One(str_opt_spec(p.plugin_reference.deep_view()))),
        ("description"@, CellV::One(str_opt_spec(Some(p.description@)))),
    ]
}

fn head(p: &Plugin) -> (row: Row)
    ensures
        row.deep_view() == plugin_head_spec(*p),
{
    let id = match &p.id {
        Some(i) => Some(short_id(i.as_str())),
        None => None,
    };
    let mut row: Row = Vec::new();
    put(&mut row, "name", Cell::One(str_opt(Some(p.name.as_str()))));
    put(&mut row, "id", Cell::One(str_opt(as_deref(&id))));
    put(&mut row, "enabled", Cell::One(Scalar::Bool(p.enabled)));
    put(&mut row, "reference", Cell::One(str_opt(as_deref(&p.plugin_reference))));
    put(&mut row, "description", Cell::One(str_opt(Some(p.description.as_str()))));
    assert(row.deep_view() =~= plugin_head_spec(*p));
    row
}

/// One compact row: name, id, enabled, reference, description.
pub fn compact(p: &Plugin) -> (row: Row)
    ensures
        row.deep_view() == plugin_head_spec(*p),
{
    head(p)
}

pub open spec fn plugin_wide_spec(p: Plugin) -> RowV {
    plugin_head_spec(p) + seq![
        ("documentation"@, CellV::One(str_opt_spec(Some(p.documentation@)))),
        ("capabilities"@, str_list_spec(Some(p.capabilities.deep_view()))),
        ("socket"@, CellV::One(str_opt_spec(Some(p.socket@)))),
        ("entrypoint"@, str_list_spec(Some(p.entrypoint.deep_view()))),
        ("work_dir"@, CellV::One(str_opt_spec(Some(p.work_dir@)))),
        ("env"@, str_list_spec(Some(p.env.deep_view()))),
        ("args"@, str_list_spec(Some(p.args.deep_view()))),
    ]
}

/// One wide row: the compact columns plus documentation, capabilities,
/// socket, entrypoint, work dir and the active env/args.
pub fn wide(p: &Plugin) -> (row: Row)
    ensures
        row.deep_view() == plugin_wide_spec(*p),
{
    let mut row = head(p);
    let ghost before = row.deep_view();
    put(&mut row, "documentation", Cell::One(str_opt(Some(p.documentation.as_str()))));
    put(&mut row, "capabilities", str_list(Some(&p.capabilities)));
    put(&mut row, "socket", Cell::One(str_opt(Some(p.socket.as_str()))));
    put(&mut row, "entrypoint", str_list(Some(&p.entrypoint)));
    put(&mut row, "work_dir", Cell::One(str_opt(Some(p.work_dir.as_str()))));
    put(&mut row, "env", str_list(Some(&p.env)));
    put(&mut row, "args", str_list(Some(&p.args)));
    assert(row.deep_view() =~= plugin_wide_spec(*p));
    row
}

// ---------------------------------------------------------------------------
// The commands
// ---------------------------------------------------------------------------

/// Docker's plugin list filters — the single source of truth for both the
/// signature and the request builder. The API key is `enabled`, not `enable`
/// (the daemon rejects the latter).
pub open spec fn plugin_filter_table() -> Seq<FilterArg> {
    seq![
        FilterArg {
            flag: "capability",
            api_key: "capability",
            shape: Shape::Str,
            help: "Capability: volumedriver|networkdriver|ipamdriver|authz|logdriver|metricscollector",
        },
        FilterArg {
            flag: "enabled",
            api_key: "enabled",
            shape: Shape::Switch,
            help: "Only enabled plugins",
        },
    ]
}

/// The plugin list filters. `enabled` is a switch: the shell lexes a bare
/// `true`/`false` as a bool, not a string.
pub fn plugin_filters() -> (v: Vec<FilterArg>)
    ensures
        v@ == plugin_filter_table(),
{
    let v = vec![
        FilterArg::string(
            "capability",
            "Capability: volumedriver|networkdriver|ipamdriver|authz|logdriver|metricscollector",
        ),
        FilterArg::switch("enabled", "Only enabled plugins"),
    ];
    assert(v@ =~= plugin_filter_table());
    v
}

pub open spec fn plugin_ls_completion_spec(arg: ArgKindV) -> CompletionSource {
    match arg {
        ArgKindV::Flag(n) => if is_output_flag(n) {
            CompletionSource::OutputFormats
        } else if n == "capability"@ {
            CompletionSource::Capabilities
        } else {
            CompletionSource::Nothing
        },
        ArgKindV::Positional(_) => CompletionSource::Nothing,
    }
}

impl PluginLsCommand {
    pub fn name(&self) -> (r: &'static str)
        ensures
            r@ == "nude plugin ls"@,
    {
        "nude plugin ls"
    }

    pub fn description(&self) -> (r: &'static str)
        ensures
            r@ == "List managed plugins"@,
    {
        "List managed plugins"
    }

    /// `--output` and one flag per filter: plugins have neither `--all` nor
    /// labels.
    pub fn signature(&self) -> (sig: SignatureSpec)
        ensures
            sig.name@ == "nude plugin ls"@,
            docker_command(sig),
            sig.required is None,
            sig.flags.deep_view() == list_flags_of(None, false, "plugin"@, plugin_filter_table()),
    {
        list_signature(
            &CommandSpec {
                cmd: "nude plugin ls",
                noun: "plugin",
                all_help: None,
                show_labels: false,
                filters: plugin_filters(),
            },
        )
    }

    /// The capability kinds for `--capability`.
    pub fn completion(&self, arg: &ArgKind) -> (r: CompletionSource)
        ensures
            r == plugin_ls_completion_spec(arg.deep_view()),
    {
        match arg {
            ArgKind::Flag(n) => {
                let n = n.as_str();
                if output_flag_name(n) {
                    CompletionSource::OutputFormats
                } else if str_eq(n, "capability") {
                    CompletionSource::Capabilities
                } else {
                    CompletionSource::Nothing
                }
            },
            ArgKind::Positional(_) => CompletionSource::Nothing,
        }
    }
}

impl PluginInspectCommand {
    pub fn name(&self) -> (r: &'static str)
        ensures
            r@ == "nude plugin inspect"@,
    {
        "nude plugin inspect"
    }

    pub fn description(&self) -> (r: &'static str)
        ensures
            r@ == "Inspect a managed plugin by name"@,
    {
        "Inspect a managed plugin by name"
    }

    /// The plugin name and `--output`; no `--show-labels`.
    pub fn signature(&self) -> (sig: SignatureSpec)
        ensures
            sig.name@ == "nude plugin inspect"@,
            docker_command(sig),
            sig.required matches Some((n, h)) && n@ == "name"@ && h@ == "Plugin name"@,
            sig.flags.deep_view() == inspect_flags_spec(None),
    {
        inspect_signature("nude plugin inspect", "Plugin name", None)
    }

    /// Plugin names for the positional, formats for `--output`.
    pub fn completion(&self, arg: &ArgKind) -> (r: CompletionSource)
        ensures
            r == ref_and_output_spec(arg.deep_view(), CompletionSource::PluginNames),
    {
        ref_and_output(arg, CompletionSource::PluginNames)
    }
}

/// One plugin in a format: compact or wide rows; `full` is the raw record.
pub open spec fn plugin_row_spec(p: Plugin, fmt: OutputFormat) -> RowV {
    if fmt == OutputFormat::Compact {
        plugin_head_spec(p)
    } else {
        plugin_wide_spec(p)
    }
}

pub open spec fn plugins_spec(plugins: Seq<Plugin>, fmt: OutputFormat) -> RenderingV {
    if fmt == OutputFormat::Full {
        RenderingV::Raw
    } else {
        RenderingV::Rows(plugins.map_values(|p: Plugin| plugin_row_spec(p, fmt)))
    }
}

/// What `ls` shows of the listed plugins. Every format is built from the same
/// record — there is no inspect fan-out.
pub fn list_rendering(plugins: &Vec<Plugin>, fmt: OutputFormat) -> (r: Rendering)
    ensures
        r.deep_view() == plugins_spec(plugins@, fmt),
{
    if fmt == OutputFormat::Full {
        return Rendering::Raw;
    }
    let mut rows: Vec<Row> = Vec::new();
    let mut i: usize = 0;
    while i < plugins.len()
        invariant
            i <= plugins@.len(),
            fmt != OutputFormat::Full,
            rows.deep_view() =~= plugins@.take(i as int).map_values(
                |p: Plugin| plugin_row_spec(p, fmt),
            ),
        decreases plugins@.len() - i,
    {
        let ghost before = rows.deep_view();
        let row = if fmt == OutputFormat::Compact {
            compact(&plugins[i])
        } else {
            wide(&plugins[i])
        };
        rows.push(row);
        assert(rows.deep_view() =~= before.push(plugin_row_spec(plugins@[i as int], fmt)));
        assert(plugins@.take(i + 1) =~= plugins@.take(i as int).push(plugins@[i as int]));
        i = i + 1;
    }
    assert(plugins@.take(i as int) =~= plugins@);
    Rendering::Rows(rows)
}

pub open spec fn inspected_spec(p: Plugin, fmt: OutputFormat) -> RenderingV {
    if fmt == OutputFormat::Full {
        RenderingV::Raw
    } else {
        RenderingV::Rows(seq![plugin_wide_spec(p)])
    }
}

/// What `inspect` shows of one plugin: the raw record for `full`, its wide
/// row otherwise.
pub fn inspected_rendering(p: &Plugin, fmt: OutputFormat) -> (r: Rendering)
    ensures
        r.deep_view() == inspected_spec(*p, fmt),
{
    if fmt == OutputFormat::Full {
        Rendering::Raw
    } else {
        let rows = vec![wide(p)];
        assert(rows.deep_view() =~= seq![plugin_wide_spec(*p)]);
        Rendering::Rows(rows)
    }
}

pub open spec fn name_candidate(p: Plugin) -> SuggestionV {
    SuggestionV { value: p.name@, description: Some(p.description@), append_whitespace: true }
}

/// Plugin names as candidates, described by their config description. Feeds
/// the positional.
pub fn complete_names(plugins: &Vec<Plugin>) -> (r: Vec<Suggestion>)
    ensures
        r.deep_view() == plugins@.map_values(|p: Plugin| name_candidate(p)),
{
    let mut out: Vec<Suggestion> = Vec::new();
    let mut i: usize = 0;
    while i < plugins.len()
        invariant
            i <= plugins@.len(),
            out.deep_view() =~= plugins@.take(i as int).map_values(|p: Plugin| name_candidate(p)),
        decreases plugins@.len() - i,
    {
        let p = &plugins[i];
        let ghost before = out.deep_view();
        out.push(
            Suggestion {
                value: p.name.clone(),
                description: Some(p.description.clone()),
                append_whitespace: true,
            },
        );
        assert(out.deep_view() =~= before.push(name_candidate(*p)));
        assert(plugins@.take(i + 1) =~= plugins@.take(i as int).push(*p));
        i = i + 1;
    }
    assert(plugins@.take(i as int) =~= plugins@);
    out
}

} // verus!
