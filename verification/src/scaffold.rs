//! Shared command scaffolding: the common signature shapes, the typed filter
//! table, and the filter request builder.
//!
//! Each resource declares its Docker list filters **once**, as a table of
//! [`FilterArg`]s. Both the signature (via [`list_signature`]) and the request
//! builder (via [`collect_filters`]) are driven from that same table, so a
//! filter flag can never exist in one place but be forgotten in the other.

use vstd::prelude::*;
use vstd::string::*;

use crate::helpers::split_csv;
use crate::text::{csv_parts, i64_to_string, int_decimal, owned};

verus! {

/// How a filter flag is typed, and how its value maps into Docker's filter
/// map.
#[derive(Debug, Clone, Copy, PartialEq, Eq, Structural)]
pub enum Shape {
    /// A single string value (`--driver local`).
    Str,
    /// A single integer, stringified (`--exited 0`).
    Int,
    /// A boolean switch, sent as `"true"` when present (`--dangling`).
    Switch,
    /// The comma-separated `--labels a=b,c=d`, split into the API list.
    Labels,
}

/// One Docker list filter, exposed as one typed flag.
#[derive(Debug, Clone, Copy)]
pub struct FilterArg {
    /// The flag name.
    pub flag: &'static str,
    /// The Docker API filter key — equals `flag` except where they differ
    /// (`labels` → `label`).
    pub api_key: &'static str,
    pub shape: Shape,
    pub help: &'static str,
}

impl FilterArg {
    /// A string filter whose API key is its flag name.
    pub fn string(flag: &'static str, help: &'static str) -> (f: Self)
        ensures
            f.flag == flag,
            f.api_key == flag,
            f.shape == Shape::Str,
            f.help == help,
    {
        FilterArg { flag, api_key: flag, shape: Shape::Str, help }
    }

    /// An integer filter whose API key is its flag name.
    pub fn integer(flag: &'static str, help: &'static str) -> (f: Self)
        ensures
            f.flag == flag,
            f.api_key == flag,
            f.shape == Shape::Int,
            f.help == help,
    {
        FilterArg { flag, api_key: flag, shape: Shape::Int, help }
    }

    /// A switch filter whose API key is its flag name.
    pub fn switch(flag: &'static str, help: &'static str) -> (f: Self)
        ensures
            f.flag == flag,
            f.api_key == flag,
            f.shape == Shape::Switch,
            f.help == help,
    {
        FilterArg { flag, api_key: flag, shape: Shape::Switch, help }
    }

    /// The standard `--labels a=b,c=d` filter (flag `labels` → API key
    /// `label`).
    pub fn labels() -> (f: Self)
        ensures
            f.flag == "labels",
            f.api_key == "label",
            f.shape == Shape::Labels,
            f.help == "Labels, comma-separated: `key` or `key=value` (e.g. `a=b,c=d`)",
    {
        FilterArg {
            flag: "labels",
            api_key: "label",
            shape: Shape::Labels,
            help: "Labels, comma-separated: `key` or `key=value` (e.g. `a=b,c=d`)",
        }
    }
}

/// Everything [`list_signature`] needs to build a `nude <resource> ls`
/// command's flags.
pub struct CommandSpec {
    /// Full command name, e.g. `"nude image ls"`.
    pub cmd: &'static str,
    /// Singular resource noun, woven into the `--show-labels` help.
    pub noun: &'static str,
    /// `Some(help)` adds an `--all`/`-a` switch; `None` omits it.
    pub all_help: Option<&'static str>,
    /// Whether to add the `--show-labels` decorator switch. `false` for
    /// resources with no label map (e.g. plugins), where the flag would be a
    /// no-op.
    pub show_labels: bool,
    /// The resource's filter table.
    pub filters: Vec<FilterArg>,
}

// ---------------------------------------------------------------------------
// Signatures
// ---------------------------------------------------------------------------

/// How a flag is typed.
#[derive(Debug, Clone, Copy, PartialEq, Eq, Structural)]
pub enum FlagKind {
    /// Present or absent.
    Switch,
    /// Takes an integer.
    Int,
    /// Takes a string.
    Text,
}

/// One flag of a command signature.
pub struct FlagSpec {
    pub name: String,
    pub kind: FlagKind,
    pub help: String,
    pub short: Option<char>,
}

pub struct FlagSpecV {
    pub name: Seq<char>,
    pub kind: FlagKind,
    pub help: Seq<char>,
    pub short: Option<char>,
}

impl DeepView for FlagSpec {
    type V = FlagSpecV;

    open spec fn deep_view(&self) -> FlagSpecV {
        FlagSpecV { name: self.name@, kind: self.kind, help: self.help@, short: self.short }
    }
}

/// A type a command takes as input or gives as output.
#[derive(Debug, Clone, Copy, PartialEq, Eq, Structural)]
pub enum IoType {
    /// No value.
    Nothing,
    /// Any value.
    Any,
}

/// A command signature: its name, an optional required positional
/// `(name, help)`, its flags in order, its `(input, output)` types and its
/// category.
pub struct SignatureSpec {
    pub name: String,
    pub required: Option<(String, String)>,
    pub flags: Vec<FlagSpec>,
    pub input_output: Vec<(IoType, IoType)>,
    pub category: String,
}

/// Every command takes nothing as input, returns any value, and sits in the
/// `docker` category.
pub open spec fn docker_command(sig: SignatureSpec) -> bool {
    &&& sig.input_output@ == seq![(IoType::Nothing, IoType::Any)]
    &&& sig.category@ == "docker"@
}

/// The `(input, output)` types and category every command shares.
fn docker_io() -> (r: (Vec<(IoType, IoType)>, String))
    ensures
        r.0@ == seq![(IoType::Nothing, IoType::Any)],
        r.1@ == "docker"@,
{
    let io = vec![(IoType::Nothing, IoType::Any)];
    assert(io@ =~= seq![(IoType::Nothing, IoType::Any)]);
    (io, owned("docker"))
}

pub open spec fn flag_v(name: Seq<char>, kind: FlagKind, help: Seq<char>, short: Option<char>) -> FlagSpecV {
    FlagSpecV { name, kind, help, short }
}

/// The kind of flag a filter shape is exposed as.
pub open spec fn shape_kind(shape: Shape) -> FlagKind {
    match shape {
        Shape::Switch => FlagKind::Switch,
        Shape::Int => FlagKind::Int,
        Shape::Str | Shape::Labels => FlagKind::Text,
    }
}

/// The flag a filter is exposed as.
pub open spec fn filter_flag(f: FilterArg) -> FlagSpecV {
    flag_v(f.flag@, shape_kind(f.shape), f.help@, None)
}

pub open spec fn filter_flags(filters: Seq<FilterArg>) -> Seq<FlagSpecV> {
    filters.map_values(|f: FilterArg| filter_flag(f))
}

pub open spec fn output_flag(help: Seq<char>) -> FlagSpecV {
    flag_v("output"@, FlagKind::Text, help, Some('o'))
}

pub open spec fn list_output_help() -> Seq<char> {
    "Output format: compact | wide | full  (default: compact)"@
}

pub open spec fn inspect_output_help() -> Seq<char> {
    "Output format: wide | full  (default: wide)"@
}

/// The flags of a resource's `ls`: `--output`, `--all` when it has help for
/// it, `--show-labels` when the resource has labels, then one per filter.
pub open spec fn list_flags_of(
    all_help: Option<&'static str>,
    show_labels: bool,
    noun: Seq<char>,
    filters: Seq<FilterArg>,
) -> Seq<FlagSpecV> {
    seq![output_flag(list_output_help())] + (match all_help {
        Some(h) => seq![flag_v("all"@, FlagKind::Switch, h@, Some('a'))],
        None => Seq::empty(),
    }) + (if show_labels {
        seq![
            flag_v(
                "show-labels"@,
                FlagKind::Switch,
                "Enrich each "@ + noun + " with a `labels` column (compact/wide; full always has them)"@,
                None,
            ),
        ]
    } else {
        Seq::empty()
    }) + filter_flags(filters)
}

pub open spec fn list_flags_spec(spec: CommandSpec) -> Seq<FlagSpecV> {
    list_flags_of(spec.all_help, spec.show_labels, spec.noun@, spec.filters@)
}

fn flag(name: &str, kind: FlagKind, help: String, short: Option<char>) -> (f: FlagSpec)
    ensures
        f.deep_view() == flag_v(name@, kind, help@, short),
{
    FlagSpec { name: owned(name), kind, help, short }
}

fn push_flag(flags: &mut Vec<FlagSpec>, f: FlagSpec)
    ensures
        final(flags).deep_view() == old(flags).deep_view().push(f.deep_view()),
{
    let ghost before = flags.deep_view();
    let ghost fv = f.deep_view();
    flags.push(f);
    assert(flags.deep_view() =~= before.push(fv));
}

/// Append one flag per filter.
fn add_filters(flags: &mut Vec<FlagSpec>, filters: &Vec<FilterArg>)
    ensures
        final(flags).deep_view() == old(flags).deep_view() + filter_flags(filters@),
{
    let ghost before = flags.deep_view();
    let mut i: usize = 0;
    while i < filters.len()
        invariant
            i <= filters@.len(),
            flags.deep_view() =~= before + filter_flags(filters@.take(i as int)),
        decreases filters@.len() - i,
    {
        let f = filters[i];
        let kind = match f.shape {
            Shape::Switch => FlagKind::Switch,
            Shape::Int => FlagKind::Int,
            Shape::Str | Shape::Labels => FlagKind::Text,
        };
        push_flag(flags, flag(f.flag, kind, owned(f.help), None));
        assert(filters@.take(i + 1) =~= filters@.take(i as int).push(f));
        assert(filter_flags(filters@.take(i + 1)) =~= filter_flags(filters@.take(i as int)).push(
            filter_flag(f),
        ));
        i = i + 1;
    }
    assert(filters@.take(i as int) =~= filters@);
}

/// The common signature every resource's `ls` shares: `--output`/`-o`, an
/// optional `--all`, `--show-labels`, then one flag per filter.
pub fn list_signature(spec: &CommandSpec) -> (sig: SignatureSpec)
    ensures
        sig.name@ == spec.cmd@,
        docker_command(sig),
        sig.required is None,
        sig.flags.deep_view() == list_flags_spec(*spec),
{
    let mut flags: Vec<FlagSpec> = Vec::new();
    push_flag(
        &mut flags,
        flag("output", FlagKind::Text, owned("Output format: compact | wide | full  (default: compact)"), Some('o')),
    );
    match spec.all_help {
        Some(help) => push_flag(&mut flags, flag("all", FlagKind::Switch, owned(help), Some('a'))),
        None => {},
    }
    if spec.show_labels {
        let help = owned("Enrich each").concat(" ").concat(spec.noun).concat(
            " with a `labels` column (compact/wide; full always has them)",
        );
        proof {
            reveal_strlit("Enrich each");
            reveal_strlit(" ");
            reveal_strlit("Enrich each ");
            reveal_strlit(" with a `labels` column (compact/wide; full always has them)");
            assert("Enrich each"@ + " "@ =~= "Enrich each "@);
        }
        push_flag(&mut flags, flag("show-labels", FlagKind::Switch, help, None));
    }
    add_filters(&mut flags, &spec.filters);
    assert(flags.deep_view() =~= list_flags_spec(*spec));
    let (input_output, category) = docker_io();
    SignatureSpec { name: owned(spec.cmd), required: None, flags, input_output, category }
}

pub open spec fn inspect_flags_spec(noun: Option<Seq<char>>) -> Seq<FlagSpecV> {
    seq![output_flag(inspect_output_help())] + match noun {
        Some(n) => seq![
            flag_v(
                "show-labels"@,
                FlagKind::Switch,
                "Enrich the "@ + n + " with a `labels` column (wide; full always has them)"@,
                None,
            ),
        ],
        None => Seq::empty(),
    }
}

/// Signature for a resource's `inspect` command: a **required** `name`
/// positional and `--output` (default `wide`), plus `--show-labels` when
/// `show_labels_noun` names the resource (resources with a label map).
pub fn inspect_signature(cmd: &str, ref_help: &str, show_labels_noun: Option<&str>) -> (sig:
    SignatureSpec)
    ensures
        sig.name@ == cmd@,
        docker_command(sig),
        sig.required matches Some((n, h)) && n@ == "name"@ && h@ == ref_help@,
        sig.flags.deep_view() == inspect_flags_spec(show_labels_noun.deep_view()),
{
    let mut flags: Vec<FlagSpec> = Vec::new();
    push_flag(
        &mut flags,
        flag("output", FlagKind::Text, owned("Output format: wide | full  (default: wide)"), Some('o')),
    );
    match show_labels_noun {
        Some(noun) => {
            let help = owned("Enrich the").concat(" ").concat(noun).concat(
                " with a `labels` column (wide; full always has them)",
            );
            proof {
                reveal_strlit("Enrich the");
                reveal_strlit(" ");
                reveal_strlit("Enrich the ");
                assert("Enrich the"@ + " "@ =~= "Enrich the "@);
            }
            push_flag(&mut flags, flag("show-labels", FlagKind::Switch, help, None));
        },
        None => {},
    }
    assert(flags.deep_view() =~= inspect_flags_spec(show_labels_noun.deep_view()));
    let (input_output, category) = docker_io();
    SignatureSpec { name: owned(cmd), required: Some((owned("name"), owned(ref_help))), flags, input_output, category }
}

pub open spec fn search_flags_spec(filters: Seq<FilterArg>) -> Seq<FlagSpecV> {
    seq![
        output_flag(list_output_help()),
        flag_v(
            "limit"@,
            FlagKind::Int,
            "Maximum number of results (Docker Hub caps at 100; default 25)"@,
            None,
        ),
    ] + filter_flags(filters)
}

/// Signature for the registry-search command: a **required** `term`,
/// `--output`, `--limit`, and the filter flags.
pub fn search_signature(cmd: &str, term_help: &str, filters: &Vec<FilterArg>) -> (sig:
    SignatureSpec)
    ensures
        sig.name@ == cmd@,
        docker_command(sig),
        sig.required matches Some((n, h)) && n@ == "term"@ && h@ == term_help@,
        sig.flags.deep_view() == search_flags_spec(filters@),
{
    let mut flags: Vec<FlagSpec> = Vec::new();
    push_flag(
        &mut flags,
        flag("output", FlagKind::Text, owned("Output format: compact | wide | full  (default: compact)"), Some('o')),
    );
    push_flag(
        &mut flags,
        flag(
            "limit",
            FlagKind::Int,
            owned("Maximum number of results (Docker Hub caps at 100; default 25)"),
            None,
        ),
    );
    add_filters(&mut flags, filters);
    assert(flags.deep_view() =~= search_flags_spec(filters@));
    let (input_output, category) = docker_io();
    SignatureSpec { name: owned(cmd), required: Some((owned("term"), owned(term_help))), flags, input_output, category }
}

/// The signature for a singleton `nude system <sub>` command: only
/// `--output`/`-o`.
pub fn singleton_signature(cmd: &str) -> (sig: SignatureSpec)
    ensures
        sig.name@ == cmd@,
        docker_command(sig),
        sig.required is None,
        sig.flags.deep_view() == seq![output_flag(list_output_help())],
{
    let mut flags: Vec<FlagSpec> = Vec::new();
    push_flag(
        &mut flags,
        flag("output", FlagKind::Text, owned("Output format: compact | wide | full  (default: compact)"), Some('o')),
    );
    assert(flags.deep_view() =~= seq![output_flag(list_output_help())]);
    let (input_output, category) = docker_io();
    SignatureSpec { name: owned(cmd), required: None, flags, input_output, category }
}

/// Signature for a per-object detail sub-verb (`nude container diff <name>`,
/// `nude image history <ref>`, …): a **required** `name` positional and
/// `--output`.
pub fn subcommand_signature(cmd: &str, ref_help: &str) -> (sig: SignatureSpec)
    ensures
        sig.name@ == cmd@,
        docker_command(sig),
        sig.required matches Some((n, h)) && n@ == "name"@ && h@ == ref_help@,
        sig.flags.deep_view() == seq![output_flag(list_output_help())],
{
    let mut flags: Vec<FlagSpec> = Vec::new();
    push_flag(
        &mut flags,
        flag("output", FlagKind::Text, owned("Output format: compact | wide | full  (default: compact)"), Some('o')),
    );
    assert(flags.deep_view() =~= seq![output_flag(list_output_help())]);
    let (input_output, category) = docker_io();
    SignatureSpec { name: owned(cmd), required: Some((owned("name"), owned(ref_help))), flags, input_output, category }
}

// ---------------------------------------------------------------------------
// Filter requests
// ---------------------------------------------------------------------------

/// What the caller gave for one filter flag: a string (for string and label
/// filters), an integer (for integer filters), a switch that is set, or
/// nothing.
pub enum FlagValue {
    Absent,
    Text(String),
    Number(i64),
    Present,
}

pub enum FlagValueV {
    Absent,
    Text(Seq<char>),
    Number(i64),
    Present,
}

impl DeepView for FlagValue {
    type V = FlagValueV;

    open spec fn deep_view(&self) -> FlagValueV {
        match self {
            FlagValue::Absent => FlagValueV::Absent,
            FlagValue::Text(s) => FlagValueV::Text(s@),
            FlagValue::Number(n) => FlagValueV::Number(*n),
            FlagValue::Present => FlagValueV::Present,
        }
    }
}

/// Docker's `map[string][]string` filter map, as its entries in table
/// order (the API keys of a table are distinct, so each key comes once).
pub struct FilterMap {
    pub entries: Vec<(String, Vec<String>)>,
}

/// The entry a filter contributes for the value it was given, if any.
pub open spec fn filter_entry(f: FilterArg, v: FlagValueV) -> Option<(Seq<char>, Seq<Seq<char>>)> {
    match (f.shape, v) {
        (Shape::Str, FlagValueV::Text(s)) => Some((f.api_key@, seq![s])),
        (Shape::Int, FlagValueV::Number(n)) => Some((f.api_key@, seq![int_decimal(n as int)])),
        (Shape::Switch, FlagValueV::Present) => Some((f.api_key@, seq!["true"@])),
        (Shape::Labels, FlagValueV::Text(s)) => if csv_parts(s).len() > 0 {
            Some((f.api_key@, csv_parts(s)))
        } else {
            None
        },
        _ => None,
    }
}

/// The entries the first `n` filters contribute, in table order.
pub open spec fn collected(fs: Seq<FilterArg>, vs: Seq<FlagValueV>, n: nat) -> Seq<
    (Seq<char>, Seq<Seq<char>>),
>
    decreases n,
{
    if n == 0 {
        Seq::empty()
    } else {
        collected(fs, vs, (n - 1) as nat) + match filter_entry(fs[n - 1], vs[n - 1]) {
            Some(e) => seq![e],
            None => Seq::empty(),
        }
    }
}

fn entry_of(f: &FilterArg, v: &FlagValue) -> (r: Option<(String, Vec<String>)>)
    ensures
        r.deep_view() == filter_entry(*f, v.deep_view()),
{
    match (f.shape, v) {
        (Shape::Str, FlagValue::Text(s)) => {
            let values = vec![s.clone()];
            assert(values.deep_view() =~= seq![s@]);
            Some((owned(f.api_key), values))
        },
        (Shape::Int, FlagValue::Number(n)) => {
            let values = vec![i64_to_string(*n)];
            assert(values.deep_view() =~= seq![int_decimal(*n as int)]);
            Some((owned(f.api_key), values))
        },
        (Shape::Switch, FlagValue::Present) => {
            let values = vec![owned("true")];
            assert(values.deep_view() =~= seq!["true"@]);
            Some((owned(f.api_key), values))
        },
        (Shape::Labels, FlagValue::Text(s)) => {
            let values = split_csv(s.as_str());
            if values.len() > 0 {
                Some((owned(f.api_key), values))
            } else {
                None
            }
        },
        _ => None,
    }
}

/// Collect the present filter flags into Docker's filter map, driven by the
/// same table the signature used. `values[i]` is what the caller gave for
/// `filters[i]`.
pub fn collect_filters(filters: &Vec<FilterArg>, values: &Vec<FlagValue>) -> (m: FilterMap)
    requires
        values@.len() == filters@.len(),
    ensures
        m.entries.deep_view() == collected(filters@, values.deep_view(), filters@.len()),
{
    let mut entries: Vec<(String, Vec<String>)> = Vec::new();
    let mut i: usize = 0;
    while i < filters.len()
        invariant
            i <= filters@.len(),
            values@.len() == filters@.len(),
            entries.deep_view() =~= collected(filters@, values.deep_view(), i as nat),
        decreases filters@.len() - i,
    {
        let ghost before = entries.deep_view();
        match entry_of(&filters[i], &values[i]) {
            Some(e) => {
                let ghost ev = e.deep_view();
                entries.push(e);
                assert(entries.deep_view() =~= before.push(ev));
            },
            None => {},
        }
        i = i + 1;
    }
    FilterMap { entries }
}

} // verus!
