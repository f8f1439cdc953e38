//! `nude volume ls` / `nude volume inspect` — list volumes, or inspect one by
//! name.
//!
//! The list and inspect endpoints return the **same** volume record, so wide
//! simply projects more columns of it:
//! - compact : name, driver, scope, created
//! - wide    : the same, with mountpoint / options / usage columns
//! - full    : the record, converted verbatim (outside this library)

use vstd::prelude::*;

use crate::decorators::{labels_column, Decorators};
use crate::helpers::{
    as_deref, enum_opt, opt_filesize, opt_filesize_spec, opt_int, opt_int_spec, opt_rfc3339,
    opt_rfc3339_spec, str_map, str_map_spec, str_opt, str_opt_spec,
};
use crate::completers::{
    is_output_flag, output_flag_name, ref_and_output, ref_and_output_spec, sorted_insert,
    sorted_strict, ArgKind, ArgKindV, CompletionSource, Suggestion, SuggestionV,
};
use crate::output::OutputFormat;
use crate::scaffold::{
    inspect_flags_spec, inspect_signature, list_flags_of, list_signature, CommandSpec, FilterArg,
    docker_command, Shape, SignatureSpec,
};
use crate::text::str_eq;
use crate::value::{put, Cell, CellV, Rendering, RenderingV, Row, RowV};

verus! {

/// `nude volume ls`.
pub struct VolumeLsCommand;

/// `nude volume inspect`.
pub struct VolumeInspectCommand;

/// A volume as the daemon reports it.
pub struct Volume {
    pub name: String,
    pub driver: String,
    /// The scope enum, by the name it serializes to (empty when unset).
    pub scope: Option<String>,
    pub created_at: Option<String>,
    pub mountpoint: String,
    pub options: Vec<(String, String)>,
    /// Usage `(size, ref_count)`, present only when the daemon computed it.
    pub usage: Option<(i64, i64)>,
    pub labels: Vec<(String, String)>,
}

pub open spec fn usage_size(u: Option<(i64, i64)>) -> Option<i64> {
    match u {
        Some(u) => Some(u.0),
        None => None,
    }
}

pub open spec fn usage_refs(u: Option<(i64, i64)>) -> Option<i64> {
    match u {
        Some(u) => Some(u.1),
        None => None,
    }
}

pub open spec fn volume_compact_spec(v: Volume, show_labels: bool) -> RowV {
    seq![
        ("name"@, CellV::One(str_opt_spec(Some(v.name@)))),
        ("driver"@, CellV::One(str_opt_spec(Some(v.driver@)))),
        ("scope"@, CellV::One(str_opt_spec(v.scope.deep_view()))),
        ("created"@, CellV::One(opt_rfc3339_spec(v.created_at.deep_view()))),
    ] + labels_column(show_labels, Some(v.labels.deep_view()))
}

/// One compact row: name, driver, scope, created.
pub fn compact(v: &Volume, decorators: Decorators) -> (row: Row)
    ensures
        row.deep_view() == volume_compact_spec(*v, decorators.shows_labels()),
{
    let mut row: Row = Vec::new();
    put(&mut row, "name", Cell::One(str_opt(Some(v.name.as_str()))));
    put(&mut row, "driver", Cell::One(str_opt(Some(v.driver.as_str()))));
    put(&mut row, "scope", Cell::One(enum_opt(as_deref(&v.scope))));
    put(&mut row, "created", Cell::One(opt_rfc3339(as_deref(&v.created_at))));
    decorators.apply_labels(&mut row, Some(&v.labels));
    assert(row.deep_view() =~= volume_compact_spec(*v, decorators.shows_labels()));
    row
}

pub open spec fn volume_wide_spec(v: Volume, show_labels: bool) -> RowV {
    seq![
        ("name"@, CellV::One(str_opt_spec(Some(v.name@)))),
        ("driver"@, CellV::One(str_opt_spec(Some(v.driver@)))),
        ("scope"@, CellV::One(str_opt_spec(v.scope.deep_view()))),
        ("mountpoint"@, CellV::One(str_opt_spec(Some(v.mountpoint@)))),
        ("created"@, CellV::One(opt_rfc3339_spec(v.created_at.deep_view()))),
        ("options"@, str_map_spec(Some(v.options.deep_view()))),
        ("size"@, CellV::One(opt_filesize_spec(usage_size(v.usage)))),
        ("refs"@, CellV::One(opt_int_spec(usage_refs(v.usage)))),
    ] + labels_column(show_labels, Some(v.labels.deep_view()))
}

/// One wide row: the compact columns plus mountpoint, options and usage.
/// Usage is nothing unless the daemon computed it, rather than a misleading
/// zero.
pub fn wide(v: &Volume, decorators: Decorators) -> (row: Row)
    ensures
        row.deep_view() == volume_wide_spec(*v, decorators.shows_labels()),
{
    let (size, refs) = match v.usage {
        Some((s, r)) => (Some(s), Some(r)),
        None => (None, None),
    };
    let mut row: Row = Vec::new();
    put(&mut row, "name", Cell::One(str_opt(Some(v.name.as_str()))));
    put(&mut row, "driver", Cell::One(str_opt(Some(v.driver.as_str()))));
    put(&mut row, "scope", Cell::One(enum_opt(as_deref(&v.scope))));
    put(&mut row, "mountpoint", Cell::One(str_opt(Some(v.mountpoint.as_str()))));
    put(&mut row, "created", Cell::One(opt_rfc3339(as_deref(&v.created_at))));
    put(&mut row, "options", str_map(Some(&v.options)));
    put(&mut row, "size", Cell::One(opt_filesize(size)));
    put(&mut row, "refs", Cell::One(opt_int(refs)));
    decorators.apply_labels(&mut row, Some(&v.labels));
    assert(row.deep_view() =~= volume_wide_spec(*v, decorators.shows_labels()));
    row
}

// ---------------------------------------------------------------------------
// The commands
// ---------------------------------------------------------------------------

/// Docker's volume list filters — the single source of truth for both the
/// signature and the request builder.
pub open spec fn volume_filter_table() -> Seq<FilterArg> {
    seq![
        FilterArg {
            flag: "driver",
            api_key: "driver",
            shape: Shape::Str,
            help: "Volume driver (e.g. `local`, or a volume plugin)",
        },
        FilterArg {
            flag: "name",
            api_key: "name",
            shape: Shape::Str,
            help: "Name substring (use `inspect` for an exact lookup)",
        },
        FilterArg {
            flag: "dangling",
            api_key: "dangling",
            shape: Shape::Switch,
            help: "Only volumes not used by any container",
        },
        FilterArg {
            flag: "labels",
            api_key: "label",
            shape: Shape::Labels,
            help: "Labels, comma-separated: `key` or `key=value` (e.g. `a=b,c=d`)",
        },
    ]
}

/// The volume list filters.
pub fn volume_filters() -> (v: Vec<FilterArg>)
    ensures
        v@ == volume_filter_table(),
{
    let v = vec![
        FilterArg::string("driver", "Volume driver (e.g. `local`, or a volume plugin)"),
        FilterArg::string("name", "Name substring (use `inspect` for an exact lookup)"),
        FilterArg::switch("dangling", "Only volumes not used by any container"),
        FilterArg::labels(),
    ];
    assert(v@ =~= volume_filter_table());
    v
}

pub open spec fn volume_ls_completion_spec(arg: ArgKindV) -> CompletionSource {
    match arg {
        ArgKindV::Flag(n) => if is_output_flag(n) {
            CompletionSource::OutputFormats
        } else if n == "driver"@ {
            CompletionSource::VolumeDrivers
        } else if n == "name"@ {
            CompletionSource::VolumeNames
        } else if n == "labels"@ {
            CompletionSource::VolumeLabels
        } else {
            CompletionSource::Nothing
        },
        ArgKindV::Positional(_) => CompletionSource::Nothing,
    }
}

impl VolumeLsCommand {
    pub fn name(&self) -> (r: &'static str)
        ensures
            r@ == "nude volume ls"@,
    {
        "nude volume ls"
    }

    pub fn description(&self) -> (r: &'static str)
        ensures
            r@ == "List volumes"@,
    {
        "List volumes"
    }

    /// `--output`, `--show-labels`, and one flag per filter; volumes have no
    /// `--all`.
    pub fn signature(&self) -> (sig: SignatureSpec)
        ensures
            sig.name@ == "nude volume ls"@,
            docker_command(sig),
            sig.required is None,
            sig.flags.deep_view() == list_flags_of(None, true, "volume"@, volume_filter_table()),
    {
        list_signature(
            &CommandSpec {
                cmd: "nude volume ls",
                noun: "volume",
                all_help: None,
                show_labels: true,
                filters: volume_filters(),
            },
        )
    }

    /// Drivers in use for `--driver` (drivers are pluggable, so there is no
    /// closed set), volume names for `--name`, the volumes' labels for
    /// `--labels`; `--dangling` has no useful completion.
    pub fn completion(&self, arg: &ArgKind) -> (r: CompletionSource)
        ensures
            r == volume_ls_completion_spec(arg.deep_view()),
    {
        match arg {
            ArgKind::Flag(n) => {
                let n = n.as_str();
                if output_flag_name(n) {
                    CompletionSource::OutputFormats
                } else if str_eq(n, "driver") {
                    CompletionSource::VolumeDrivers
                } else if str_eq(n, "name") {
                    CompletionSource::VolumeNames
                } else if str_eq(n, "labels") {
                    CompletionSource::VolumeLabels
                } else {
                    CompletionSource::Nothing
                }
            },
            ArgKind::Positional(_) => CompletionSource::Nothing,
        }
    }
}

impl VolumeInspectCommand {
    pub fn name(&self) -> (r: &'static str)
        ensures
            r@ == "nude volume inspect"@,
    {
        "nude volume inspect"
    }

    pub fn description(&self) -> (r: &'static str)
        ensures
            r@ == "Inspect a volume by name"@,
    {
        "Inspect a volume by name"
    }

    /// The volume name, `--output` and `--show-labels`.
    pub fn signature(&self) -> (sig: SignatureSpec)
        ensures
            sig.name@ == "nude volume inspect"@,
            docker_command(sig),
            sig.required matches Some((n, h)) && n@ == "name"@ && h@ == "Volume name"@,
            sig.flags.deep_view() == inspect_flags_spec(Some("volume"@)),
    {
        inspect_signature("nude volume inspect", "Volume name", Some("volume"))
    }

    /// Volume names for the positional, formats for `--output`.
    pub fn completion(&self, arg: &ArgKind) -> (r: CompletionSource)
        ensures
            r == ref_and_output_spec(arg.deep_view(), CompletionSource::VolumeNames),
    {
        ref_and_output(arg, CompletionSource::VolumeNames)
    }
}

/// One volume in a format: compact or wide rows; `full` is the raw record.
pub open spec fn volume_row_spec(v: Volume, fmt: OutputFormat, show: bool) -> RowV {
    if fmt == OutputFormat::Compact {
        volume_compact_spec(v, show)
    } else {
        volume_wide_spec(v, show)
    }
}

pub open spec fn volumes_spec(volumes: Seq<Volume>, fmt: OutputFormat, show: bool) -> RenderingV {
    if fmt == OutputFormat::Full {
        RenderingV::Raw
    } else {
        RenderingV::Rows(volumes.map_values(|v: Volume| volume_row_spec(v, fmt, show)))
    }
}

/// What `ls` shows of the listed volumes. Every format is built from the same
/// record — there is no inspect fan-out.
pub fn list_rendering(volumes: &Vec<Volume>, fmt: OutputFormat, decorators: Decorators) -> (r:
    Rendering)
    ensures
        r.deep_view() == volumes_spec(volumes@, fmt, decorators.shows_labels()),
{
    if fmt == OutputFormat::Full {
        return Rendering::Raw;
    }
    let ghost show = decorators.shows_labels();
    let mut rows: Vec<Row> = Vec::new();
    let mut i: usize = 0;
    while i < volumes.len()
        invariant
            i <= volumes@.len(),
            fmt != OutputFormat::Full,
            show == decorators.shows_labels(),
            rows.deep_view() =~= volumes@.take(i as int).map_values(
                |v: Volume| volume_row_spec(v, fmt, show),
            ),
        decreases volumes@.len() - i,
    {
        let ghost before = rows.deep_view();
        let row = if fmt == OutputFormat::Compact {
            compact(&volumes[i], decorators)
        } else {
            wide(&volumes[i], decorators)
        };
        rows.push(row);
        assert(rows.deep_view() =~= before.push(volume_row_spec(volumes@[i as int], fmt, show)));
        assert(volumes@.take(i + 1) =~= volumes@.take(i as int).push(volumes@[i as int]));
        i = i + 1;
    }
    assert(volumes@.take(i as int) =~= volumes@);
    Rendering::Rows(rows)
}

pub open spec fn inspected_spec(v: Volume, fmt: OutputFormat, show: bool) -> RenderingV {
    if fmt == OutputFormat::Full {
        RenderingV::Raw
    } else {
        RenderingV::Rows(seq![volume_wide_spec(v, show)])
    }
}

/// What `inspect` shows of one volume: the raw record for `full`, its wide
/// row otherwise.
pub fn inspected_rendering(v: &Volume, fmt: OutputFormat, decorators: Decorators) -> (r: Rendering)
    ensures
        r.deep_view() == inspected_spec(*v, fmt, decorators.shows_labels()),
{
    if fmt == OutputFormat::Full {
        Rendering::Raw
    } else {
        let rows = vec![wide(v, decorators)];
        assert(rows.deep_view() =~= seq![volume_wide_spec(*v, decorators.shows_labels())]);
        Rendering::Rows(rows)
    }
}

// ---------------------------------------------------------------------------
// Live candidates
// ---------------------------------------------------------------------------

/// The values of a list of candidates.
pub open spec fn candidate_values(s: Seq<SuggestionV>) -> Seq<Seq<char>> {
    s.map_values(|c: SuggestionV| c.value)
}

pub open spec fn name_candidate(v: Volume) -> SuggestionV {
    SuggestionV { value: v.name@, description: Some(v.driver@), append_whitespace: true }
}

/// Volume names as candidates, described by their driver. Feeds the
/// positional and the `--name` filter.
pub fn complete_names(volumes: &Vec<Volume>) -> (r: Vec<Suggestion>)
    ensures
        r.deep_view() == volumes@.map_values(|v: Volume| name_candidate(v)),
{
    let mut out: Vec<Suggestion> = Vec::new();
    let mut i: usize = 0;
    while i < volumes.len()
        invariant
            i <= volumes@.len(),
            out.deep_view() =~= volumes@.take(i as int).map_values(|v: Volume| name_candidate(v)),
        decreases volumes@.len() - i,
    {
        let v = &volumes[i];
        let ghost before = out.deep_view();
        let s = Suggestion {
            value: v.name.clone(),
            description: Some(v.driver.clone()),
            append_whitespace: true,
        };
        out.push(s);
        assert(out.deep_view() =~= before.push(name_candidate(*v)));
        assert(volumes@.take(i + 1) =~= volumes@.take(i as int).push(*v));
        i = i + 1;
    }
    assert(volumes@.take(i as int) =~= volumes@);
    out
}

/// The distinct drivers actually in use, in order. Feeds `--driver`.
pub fn complete_drivers(volumes: &Vec<Volume>) -> (r: Vec<Suggestion>)
    ensures
        sorted_strict(candidate_values(r.deep_view())),
        forall|d: Seq<char>| #[trigger]
            candidate_values(r.deep_view()).contains(d) <==> exists|k: int|
                0 <= k < volumes@.len() && volumes@[k].driver@ == d,
        forall|k: int| #![trigger r@[k]]
            0 <= k < r@.len() ==> r@[k].description is None && r@[k].append_whitespace,
{
    let mut drivers: Vec<String> = Vec::new();
    let mut i: usize = 0;
    while i < volumes.len()
        invariant
            i <= volumes@.len(),
            sorted_strict(drivers.deep_view()),
            forall|d: Seq<char>| #[trigger]
                drivers.deep_view().contains(d) <==> exists|k: int|
                    0 <= k < i && volumes@[k].driver@ == d,
        decreases volumes@.len() - i,
    {
        let ghost before = drivers.deep_view();
        sorted_insert(&mut drivers, volumes[i].driver.clone());
        assert forall|d: Seq<char>| #[trigger]
            drivers.deep_view().contains(d) <==> exists|k: int|
                0 <= k < i + 1 && volumes@[k].driver@ == d by {
            if drivers.deep_view().contains(d) && !before.contains(d) {
                assert(volumes@[i as int].driver@ == d);
            }
            if exists|k: int| 0 <= k < i + 1 && volumes@[k].driver@ == d {
                let k = choose|k: int| 0 <= k < i + 1 && volumes@[k].driver@ == d;
                if k < i {
                    assert(before.contains(d));
                }
            }
        }
        i = i + 1;
    }
    let ghost names = drivers.deep_view();
    let mut out: Vec<Suggestion> = Vec::new();
    let mut j: usize = 0;
    while j < drivers.len()
        invariant
            j <= drivers@.len(),
            names == drivers.deep_view(),
            out@.len() == j,
            forall|k: int| #![trigger out@[k]]
                0 <= k < j ==> out@[k].value@ == names[k] && out@[k].description is None
                    && out@[k].append_whitespace,
        decreases drivers@.len() - j,
    {
        out.push(Suggestion { value: drivers[j].clone(), description: None, append_whitespace: true });
        j = j + 1;
    }
    assert(candidate_values(out.deep_view()) =~= names);
    out
}

} // verus!
