//! The typed cells that every command emits.
//!
//! A command's output is a table of rows; a row is an ordered list of named
//! cells. A cell is a primitive [`Scalar`] (string, int, bool, file size, date,
//! or nothing), a list of scalars, a record of named scalars, or a table of such
//! records. The host shell receives these as its own structured values.

use vstd::prelude::*;

verus! {

/// An instant: seconds since the Unix epoch, the sub-second nanoseconds, and
/// the UTC offset (in seconds) it was written with.
#[derive(Clone, Copy, Debug, PartialEq, Eq)]
pub struct DateStamp {
    pub secs: i64,
    pub nanos: u32,
    pub offset_secs: i32,
}

/// A primitive cell.
#[derive(Debug)]
pub enum Scalar {
    Nothing,
    Str(String),
    Int(i64),
    Bool(bool),
    Filesize(i64),
    Date(DateStamp),
}

/// The mathematical value of a [`Scalar`].
pub enum ScalarV {
    Nothing,
    Str(Seq<char>),
    Int(int),
    Bool(bool),
    Filesize(int),
    Date(DateStamp),
}

impl DeepView for Scalar {
    type V = ScalarV;

    open spec fn deep_view(&self) -> ScalarV {
        match self {
            Scalar::Nothing => ScalarV::Nothing,
            Scalar::Str(s) => ScalarV::Str(s@),
            Scalar::Int(n) => ScalarV::Int(*n as int),
            Scalar::Bool(b) => ScalarV::Bool(*b),
            Scalar::Filesize(n) => ScalarV::Filesize(*n as int),
            Scalar::Date(d) => ScalarV::Date(*d),
        }
    }
}

/// A named scalar, the field of a nested record.
pub type Field = (String, Scalar);

/// A cell of a row.
#[derive(Debug)]
pub enum Cell {
    One(Scalar),
    List(Vec<Scalar>),
    Record(Vec<Field>),
    Table(Vec<Vec<Field>>),
}

/// The mathematical value of a [`Cell`].
pub enum CellV {
    One(ScalarV),
    List(Seq<ScalarV>),
    Record(Seq<(Seq<char>, ScalarV)>),
    Table(Seq<Seq<(Seq<char>, ScalarV)>>),
}

impl DeepView for Cell {
    type V = CellV;

    open spec fn deep_view(&self) -> CellV {
        match self {
            Cell::One(s) => CellV::One(s.deep_view()),
            Cell::List(v) => CellV::List(v.deep_view()),
            Cell::Record(r) => CellV::Record(r.deep_view()),
            Cell::Table(t) => CellV::Table(t.deep_view()),
        }
    }
}

/// One output row: named cells, in column order.
pub type Row = Vec<(String, Cell)>;

/// The mathematical value of a [`Row`].
pub type RowV = Seq<(Seq<char>, CellV)>;

/// A cell holding one scalar.
pub open spec fn one(s: ScalarV) -> CellV {
    CellV::One(s)
}

/// Append the column `name` holding `value` to `row`.
pub fn put(row: &mut Row, name: &str, value: Cell)
    ensures
        final(row).deep_view() == old(row).deep_view().push((name@, value.deep_view())),
{
    let ghost before = row.deep_view();
    row.push((name.to_string(), value));
    assert(row.deep_view() =~= before.push((name@, value.deep_view())));
}

/// Append the column `name` holding `value` to `row`, the name given as an
/// owned string.
pub fn put_owned(row: &mut Row, name: String, value: Cell)
    ensures
        final(row).deep_view() == old(row).deep_view().push((name@, value.deep_view())),
{
    let ghost before = row.deep_view();
    let ghost n = name@;
    row.push((name, value));
    assert(row.deep_view() =~= before.push((n, value.deep_view())));
}

/// Append the field `name` holding `value` to a nested record.
pub fn put_field(rec: &mut Vec<Field>, name: &str, value: Scalar)
    ensures
        final(rec).deep_view() == old(rec).deep_view().push((name@, value.deep_view())),
{
    let ghost before = rec.deep_view();
    rec.push((name.to_string(), value));
    assert(rec.deep_view() =~= before.push((name@, value.deep_view())));
}

/// What a command shows: rows built here, or the daemon's raw payload,
/// converted verbatim by the caller (the `full` format).
pub enum Rendering {
    Rows(Vec<Row>),
    Raw,
}

pub enum RenderingV {
    Rows(Seq<RowV>),
    Raw,
}

impl DeepView for Rendering {
    type V = RenderingV;

    open spec fn deep_view(&self) -> RenderingV {
        match self {
            Rendering::Rows(r) => RenderingV::Rows(r.deep_view()),
            Rendering::Raw => RenderingV::Raw,
        }
    }
}

/// How `ls` proceeds after listing: compact rows straight from the
/// summaries, or the ids to inspect for `wide`/`full`.
pub enum ListPlan {
    Rows(Vec<Row>),
    Inspect(Vec<String>),
}

pub enum ListPlanV {
    Rows(Seq<RowV>),
    Inspect(Seq<Seq<char>>),
}

impl DeepView for ListPlan {
    type V = ListPlanV;

    open spec fn deep_view(&self) -> ListPlanV {
        match self {
            ListPlan::Rows(r) => ListPlanV::Rows(r.deep_view()),
            ListPlan::Inspect(ids) => ListPlanV::Inspect(ids.deep_view()),
        }
    }
}

} // verus!
