//! Per-object detail views: `nude container diff`, `nude container top`,
//! `nude image history`. Each returns one flat table about a single object.

use vstd::prelude::*;

use crate::commands::image::{strip_sha256, strip_sha256_prefix};
use crate::helpers::{
    epoch_date, epoch_date_spec, short_id, str_opt, str_opt_spec,
};
use crate::text::{lowercase, owned, str_eq, take_at_most, to_lowercase};
use crate::completers::{ref_and_output, ref_and_output_spec, ArgKind, CompletionSource};
use crate::output::OutputFormat;
use crate::scaffold::{
    list_output_help, output_flag, subcommand_signature, docker_command, SignatureSpec,
};
use crate::value::{put, put_owned, Cell, CellV, Rendering, RenderingV, Row, RowV, Scalar, ScalarV};

verus! {

/// `nude container diff`.
pub struct ContainerDiffCommand;

/// `nude container top`.
pub struct ContainerTopCommand;

/// `nude image history`.
pub struct ImageHistoryCommand;

// ---------------------------------------------------------------------------
// diff
// ---------------------------------------------------------------------------

/// How a path changed since the container started.
#[derive(Debug, Clone, Copy, PartialEq, Eq, Structural)]
pub enum ChangeKind {
    Modified,
    Added,
    Deleted,
}

pub open spec fn change_kind_name(kind: ChangeKind) -> Seq<char> {
    match kind {
        ChangeKind::Modified => "modified"@,
        ChangeKind::Added => "added"@,
        ChangeKind::Deleted => "deleted"@,
    }
}

/// The name of a change kind, as a string cell.
pub fn change_kind(kind: ChangeKind) -> (r: Scalar)
    ensures
        r.deep_view() == ScalarV::Str(change_kind_name(kind)),
{
    let s = match kind {
        ChangeKind::Modified => "modified",
        ChangeKind::Added => "added",
        ChangeKind::Deleted => "deleted",
    };
    Scalar::Str(owned(s))
}

/// One filesystem change of a container.
pub struct FilesystemChange {
    pub path: String,
    pub kind: ChangeKind,
}

pub open spec fn diff_row_spec(c: FilesystemChange) -> RowV {
    seq![
        ("path"@, CellV::One(str_opt_spec(Some(c.path@)))),
        ("kind"@, CellV::One(ScalarV::Str(change_kind_name(c.kind)))),
    ]
}

/// One `{path, kind}` row.
pub fn diff_row(c: &FilesystemChange) -> (row: Row)
    ensures
        row.deep_view() == diff_row_spec(*c),
{
    let mut row: Row = Vec::new();
    put(&mut row, "path", Cell::One(str_opt(Some(c.path.as_str()))));
    put(&mut row, "kind", Cell::One(change_kind(c.kind)));
    assert(row.deep_view() =~= diff_row_spec(*c));
    row
}

impl ContainerDiffCommand {
    pub fn name(&self) -> (r: &'static str)
        ensures
            r@ == "nude container diff"@,
    {
        "nude container diff"
    }

    pub fn description(&self) -> (r: &'static str)
        ensures
            r@ == "Filesystem changes to a container since it started"@,
    {
        "Filesystem changes to a container since it started"
    }

    /// The container reference and `--output`.
    pub fn signature(&self) -> (sig: SignatureSpec)
        ensures
            sig.name@ == "nude container diff"@,
            docker_command(sig),
            sig.required matches Some((n, h)) && n@ == "name"@ && h@ == "Container name or ID"@,
            sig.flags.deep_view() == seq![output_flag(list_output_help())],
    {
        subcommand_signature("nude container diff", "Container name or ID")
    }

    /// Container names for the positional, formats for `--output`.
    pub fn completion(&self, arg: &ArgKind) -> (r: CompletionSource)
        ensures
            r == ref_and_output_spec(arg.deep_view(), CompletionSource::ContainerNames),
    {
        ref_and_output(arg, CompletionSource::ContainerNames)
    }
}

pub open spec fn diff_spec(changes: Option<Vec<FilesystemChange>>, fmt: OutputFormat) -> RenderingV {
    if fmt == OutputFormat::Full {
        RenderingV::Raw
    } else {
        match changes {
            Some(cs) => RenderingV::Rows(cs@.map_values(|c: FilesystemChange| diff_row_spec(c))),
            None => RenderingV::Rows(Seq::empty()),
        }
    }
}

/// What `diff` shows: the raw changes for `full`, `{path, kind}` rows
/// otherwise. No changes reported is an empty table, not an error.
pub fn diff_rendering(changes: &Option<Vec<FilesystemChange>>, fmt: OutputFormat) -> (r: Rendering)
    ensures
        r.deep_view() == diff_spec(*changes, fmt),
{
    if fmt == OutputFormat::Full {
        return Rendering::Raw;
    }
    let mut rows: Vec<Row> = Vec::new();
    match changes {
        Some(cs) => {
            let mut i: usize = 0;
            while i < cs.len()
                invariant
                    i <= cs@.len(),
                    rows.deep_view() =~= cs@.take(i as int).map_values(
                        |c: FilesystemChange| diff_row_spec(c),
                    ),
                decreases cs@.len() - i,
            {
                let ghost before = rows.deep_view();
                rows.push(diff_row(&cs[i]));
                assert(rows.deep_view() =~= before.push(diff_row_spec(cs@[i as int])));
                assert(cs@.take(i + 1) =~= cs@.take(i as int).push(cs@[i as int]));
                i = i + 1;
            }
            assert(cs@.take(i as int) =~= cs@);
        },
        None => {
            assert(rows.deep_view() =~= Seq::<RowV>::empty());
        },
    }
    Rendering::Rows(rows)
}

// ---------------------------------------------------------------------------
// top
// ---------------------------------------------------------------------------

/// The column titles of a process table, lowercased.
pub open spec fn top_titles(titles: Option<Seq<Seq<char>>>) -> Seq<Seq<char>> {
    match titles {
        Some(ts) => ts.map_values(|t: Seq<char>| lowercase(t)),
        None => Seq::empty(),
    }
}

/// The `i`-th entry of a process line, if it has one.
pub open spec fn process_entry(p: Seq<Seq<char>>, i: int) -> Option<Seq<char>> {
    if 0 <= i < p.len() {
        Some(p[i])
    } else {
        None
    }
}

/// One process as a row keyed by the (lowercased) titles.
pub open spec fn top_row(titles: Seq<Seq<char>>, p: Seq<Seq<char>>) -> RowV {
    Seq::new(
        titles.len(),
        |i: int| (titles[i], CellV::One(str_opt_spec(process_entry(p, i)))),
    )
}

pub open spec fn top_table_spec(
    titles: Option<Seq<Seq<char>>>,
    processes: Option<Seq<Seq<Seq<char>>>>,
) -> Seq<RowV> {
    match processes {
        Some(ps) => ps.map_values(|p: Seq<Seq<char>>| top_row(top_titles(titles), p)),
        None => Seq::empty(),
    }
}

fn lowercase_titles(titles: &Option<Vec<String>>) -> (r: Vec<String>)
    ensures
        r.deep_view() == top_titles(titles.deep_view()),
{
    let mut out: Vec<String> = Vec::new();
    match titles {
        Some(ts) => {
            let mut i: usize = 0;
            while i < ts.len()
                invariant
                    i <= ts@.len(),
                    out.deep_view() =~= ts.deep_view().take(i as int).map_values(
                        |t: Seq<char>| lowercase(t),
                    ),
                decreases ts@.len() - i,
            {
                let ghost before = out.deep_view();
                out.push(to_lowercase(ts[i].as_str()));
                assert(out.deep_view() =~= before.push(lowercase(ts[i as int]@)));
                assert(ts.deep_view().take(i + 1) =~= ts.deep_view().take(i as int).push(
                    ts[i as int]@,
                ));
                assert(ts.deep_view().take(i + 1).map_values(|t: Seq<char>| lowercase(t))
                    =~= ts.deep_view().take(i as int).map_values(|t: Seq<char>| lowercase(t)).push(
                    lowercase(ts[i as int]@),
                ));
                i = i + 1;
            }
            assert(ts.deep_view().take(i as int) =~= ts.deep_view());
        },
        None => {
            assert(out.deep_view() =~= Seq::<Seq<char>>::empty());
        },
    }
    out
}

fn process_row(titles: &Vec<String>, p: &Vec<String>) -> (row: Row)
    ensures
        row.deep_view() == top_row(titles.deep_view(), p.deep_view()),
{
    let mut row: Row = Vec::new();
    let ghost ts = titles.deep_view();
    let ghost pv = p.deep_view();
    let mut i: usize = 0;
    while i < titles.len()
        invariant
            i <= titles@.len(),
            ts == titles.deep_view(),
            pv == p.deep_view(),
            row.deep_view() =~= top_row(ts, pv).take(i as int),
        decreases titles@.len() - i,
    {
        let entry = if i < p.len() {
            Some(p[i].as_str())
        } else {
            None
        };
        assert(entry.deep_view() == process_entry(pv, i as int));
        let ghost before = row.deep_view();
        put_owned(&mut row, titles[i].clone(), Cell::One(str_opt(entry)));
        assert(top_row(ts, pv).take(i + 1) =~= top_row(ts, pv).take(i as int).push(
            top_row(ts, pv)[i as int],
        ));
        i = i + 1;
    }
    assert(top_row(ts, pv).take(i as int) =~= top_row(ts, pv));
    row
}

/// The processes as rows keyed by the lowercased column titles (`pid`,
/// `cmd`, …); a missing entry is nothing.
pub fn top_table(titles: &Option<Vec<String>>, processes: &Option<Vec<Vec<String>>>) -> (rows: Vec<
    Row,
>)
    ensures
        rows.deep_view() == top_table_spec(titles.deep_view(), processes.deep_view()),
{
    let ts = lowercase_titles(titles);
    let ghost tv = top_titles(titles.deep_view());
    let mut rows: Vec<Row> = Vec::new();
    match processes {
        Some(ps) => {
            let mut i: usize = 0;
            while i < ps.len()
                invariant
                    i <= ps@.len(),
                    ts.deep_view() == tv,
                    rows.deep_view() =~= ps.deep_view().take(i as int).map_values(
                        |p: Seq<Seq<char>>| top_row(tv, p),
                    ),
                decreases ps@.len() - i,
            {
                let ghost before = rows.deep_view();
                rows.push(process_row(&ts, &ps[i]));
                let ghost e = ps[i as int].deep_view();
                assert(rows.deep_view() =~= before.push(top_row(tv, e)));
                assert(ps.deep_view().take(i + 1) =~= ps.deep_view().take(i as int).push(e));
                assert(ps.deep_view().take(i + 1).map_values(|p: Seq<Seq<char>>| top_row(tv, p))
                    =~= ps.deep_view().take(i as int).map_values(
                    |p: Seq<Seq<char>>| top_row(tv, p),
                ).push(top_row(tv, e)));
                i = i + 1;
            }
            assert(ps.deep_view().take(i as int) =~= ps.deep_view());
        },
        None => {
            assert(rows.deep_view() =~= Seq::<RowV>::empty());
        },
    }
    rows
}

impl ContainerTopCommand {
    pub fn name(&self) -> (r: &'static str)
        ensures
            r@ == "nude container top"@,
    {
        "nude container top"
    }

    pub fn description(&self) -> (r: &'static str)
        ensures
            r@ == "Running processes in a container (like `docker top`)"@,
    {
        "Running processes in a container (like `docker top`)"
    }

    /// The (running) container reference and `--output`.
    pub fn signature(&self) -> (sig: SignatureSpec)
        ensures
            sig.name@ == "nude container top"@,
            docker_command(sig),
            sig.required matches Some((n, h)) && n@ == "name"@ && h@
                == "Container name or ID (must be running)"@,
            sig.flags.deep_view() == seq![output_flag(list_output_help())],
    {
        subcommand_signature("nude container top", "Container name or ID (must be running)")
    }

    /// Container names for the positional, formats for `--output`.
    pub fn completion(&self, arg: &ArgKind) -> (r: CompletionSource)
        ensures
            r == ref_and_output_spec(arg.deep_view(), CompletionSource::ContainerNames),
    {
        ref_and_output(arg, CompletionSource::ContainerNames)
    }
}

pub open spec fn top_spec(
    titles: Option<Seq<Seq<char>>>,
    processes: Option<Seq<Seq<Seq<char>>>>,
    fmt: OutputFormat,
) -> RenderingV {
    if fmt == OutputFormat::Full {
        RenderingV::Raw
    } else {
        RenderingV::Rows(top_table_spec(titles, processes))
    }
}

/// What `top` shows: the raw response for `full`, the process table
/// otherwise.
pub fn top_rendering(
    titles: &Option<Vec<String>>,
    processes: &Option<Vec<Vec<String>>>,
    fmt: OutputFormat,
) -> (r: Rendering)
    ensures
        r.deep_view() == top_spec(titles.deep_view(), processes.deep_view(), fmt),
{
    if fmt == OutputFormat::Full {
        Rendering::Raw
    } else {
        Rendering::Rows(top_table(titles, processes))
    }
}

// ---------------------------------------------------------------------------
// history
// ---------------------------------------------------------------------------

/// One layer of an image's history.
pub struct HistoryItem {
    pub id: String,
    /// Creation time, in Unix epoch seconds.
    pub created: i64,
    pub created_by: String,
    pub size: i64,
    pub comment: String,
}

pub open spec fn history_id_spec(id: Seq<char>) -> ScalarV {
    let s = strip_sha256(id);
    if s.len() == 0 || s == "<missing>"@ {
        ScalarV::Nothing
    } else {
        ScalarV::Str(take_at_most(s, 12))
    }
}

/// A layer id in its short form; nothing for the `<missing>` placeholder
/// Docker shows for layers built elsewhere.
pub fn history_id(id: &str) -> (r: Scalar)
    ensures
        r.deep_view() == history_id_spec(id@),
{
    let s = strip_sha256_prefix(id);
    if s.unicode_len() == 0 || str_eq(s, "<missing>") {
        Scalar::Nothing
    } else {
        Scalar::Str(short_id(s))
    }
}

/// One layer's row. `history` is a flat view: compact and wide show the
/// same primitive columns; the layer's tags are in the raw `full` payload.
pub open spec fn history_row_spec(h: HistoryItem) -> RowV {
    seq![
        ("id"@, CellV::One(history_id_spec(h.id@))),
        ("created"@, CellV::One(epoch_date_spec(h.created))),
        ("created_by"@, CellV::One(str_opt_spec(Some(h.created_by@)))),
        ("size"@, CellV::One(ScalarV::Filesize(h.size as int))),
        ("comment"@, CellV::One(str_opt_spec(Some(h.comment@)))),
    ]
}

/// One layer row: id, created, created by, size, comment.
pub fn history_row(h: &HistoryItem) -> (row: Row)
    ensures
        row.deep_view() == history_row_spec(*h),
{
    let mut row: Row = Vec::new();
    put(&mut row, "id", Cell::One(history_id(h.id.as_str())));
    put(&mut row, "created", Cell::One(epoch_date(h.created)));
    put(&mut row, "created_by", Cell::One(str_opt(Some(h.created_by.as_str()))));
    put(&mut row, "size", Cell::One(Scalar::Filesize(h.size)));
    put(&mut row, "comment", Cell::One(str_opt(Some(h.comment.as_str()))));
    assert(row.deep_view() =~= history_row_spec(*h));
    row
}

impl ImageHistoryCommand {
    pub fn name(&self) -> (r: &'static str)
        ensures
            r@ == "nude image history"@,
    {
        "nude image history"
    }

    pub fn description(&self) -> (r: &'static str)
        ensures
            r@ == "Layer history of an image (like `docker history`)"@,
    {
        "Layer history of an image (like `docker history`)"
    }

    /// The image reference and `--output`.
    pub fn signature(&self) -> (sig: SignatureSpec)
        ensures
            sig.name@ == "nude image history"@,
            docker_command(sig),
            sig.required matches Some((n, h)) && n@ == "name"@ && h@
                == "Image reference (repo:tag) or ID"@,
            sig.flags.deep_view() == seq![output_flag(list_output_help())],
    {
        subcommand_signature("nude image history", "Image reference (repo:tag) or ID")
    }

    /// Image references for the positional, formats for `--output`.
    pub fn completion(&self, arg: &ArgKind) -> (r: CompletionSource)
        ensures
            r == ref_and_output_spec(arg.deep_view(), CompletionSource::ImageRefs),
    {
        ref_and_output(arg, CompletionSource::ImageRefs)
    }
}

pub open spec fn history_spec(items: Seq<HistoryItem>, fmt: OutputFormat) -> RenderingV {
    if fmt == OutputFormat::Full {
        RenderingV::Raw
    } else {
        RenderingV::Rows(
            items.map_values(|h: HistoryItem| history_row_spec(h)),
        )
    }
}

/// What `history` shows: the raw layers for `full`, one row per layer
/// otherwise, the same in compact and wide.
pub fn history_rendering(items: &Vec<HistoryItem>, fmt: OutputFormat) -> (r: Rendering)
    ensures
        r.deep_view() == history_spec(items@, fmt),
{
    if fmt == OutputFormat::Full {
        return Rendering::Raw;
    }
    let mut rows: Vec<Row> = Vec::new();
    let mut i: usize = 0;
    while i < items.len()
        invariant
            i <= items@.len(),
            rows.deep_view() =~= items@.take(i as int).map_values(
                |h: HistoryItem| history_row_spec(h),
            ),
        decreases items@.len() - i,
    {
        let ghost before = rows.deep_view();
        rows.push(history_row(&items[i]));
        assert(rows.deep_view() =~= before.push(history_row_spec(items@[i as int])));
        assert(items@.take(i + 1) =~= items@.take(i as int).push(items@[i as int]));
        i = i + 1;
    }
    assert(items@.take(i as int) =~= items@);
    Rendering::Rows(rows)
}

} // verus!
