//! `nude image search` — search Docker Hub for images.
//!
//! The one outward-facing command: the daemon proxies the search to the
//! registry. The response is flat — every field a primitive — so compact and
//! wide are the same `{name, description, stars, official}` row.

use vstd::prelude::*;

use crate::helpers::{
    as_deref, opt_bool, opt_bool_spec, opt_int, opt_int_spec, str_opt, str_opt_spec,
};
use crate::completers::{output_completion, output_completion_spec, ArgKind, ArgKindV, CompletionSource};
use crate::output::OutputFormat;
use crate::scaffold::{
    search_flags_spec, search_signature, FilterArg, Shape, docker_command, SignatureSpec,
};
use crate::value::{put, Cell, CellV, Rendering, RenderingV, Row, RowV};

verus! {

/// `nude image search`.
pub struct ImageSearchCommand;

/// One search hit.
pub struct SearchHit {
    pub name: Option<String>,
    pub description: Option<String>,
    pub star_count: Option<i64>,
    pub is_official: Option<bool>,
}

pub open spec fn search_row_spec(h: SearchHit) -> RowV {
    seq![
        ("name"@, CellV::One(str_opt_spec(h.name.deep_view()))),
        ("description"@, CellV::One(str_opt_spec(h.description.deep_view()))),
        ("stars"@, CellV::One(opt_int_spec(h.star_count))),
        ("official"@, CellV::One(opt_bool_spec(h.is_official))),
    ]
}

/// One search hit as a row.
pub fn compact(h: &SearchHit) -> (row: Row)
    ensures
        row.deep_view() == search_row_spec(*h),
{
    let mut row: Row = Vec::new();
    put(&mut row, "name", Cell::One(str_opt(as_deref(&h.name))));
    put(&mut row, "description", Cell::One(str_opt(as_deref(&h.description))));
    put(&mut row, "stars", Cell::One(opt_int(h.star_count)));
    put(&mut row, "official", Cell::One(opt_bool(h.is_official)));
    assert(row.deep_view() =~= search_row_spec(*h));
    row
}

/// Docker's image search filters. `official` maps to the API's `is-official`
/// key (as `labels` maps to `label`); `is-automated` is left out, since the
/// registry no longer has automated builds.
pub open spec fn search_filter_table() -> Seq<FilterArg> {
    seq![
        FilterArg {
            flag: "stars",
            api_key: "stars",
            shape: Shape::Int,
            help: "Only images with at least this many stars",
        },
        FilterArg {
            flag: "official",
            api_key: "is-official",
            shape: Shape::Switch,
            help: "Only official images (disabled-only: `| where not official`)",
        },
    ]
}

/// The image search filters.
pub fn search_filters() -> (v: Vec<FilterArg>)
    ensures
        v@ == search_filter_table(),
{
    let v = vec![
        FilterArg::integer("stars", "Only images with at least this many stars"),
        FilterArg {
            flag: "official",
            api_key: "is-official",
            shape: Shape::Switch,
            help: "Only official images (disabled-only: `| where not official`)",
        },
    ];
    assert(v@ =~= search_filter_table());
    v
}

impl ImageSearchCommand {
    pub fn name(&self) -> (r: &'static str)
        ensures
            r@ == "nude image search"@,
    {
        "nude image search"
    }

    pub fn description(&self) -> (r: &'static str)
        ensures
            r@ == "Search Docker Hub for images"@,
    {
        "Search Docker Hub for images"
    }

    /// The required search term, `--output`, `--limit` and the filters.
    pub fn signature(&self) -> (sig: SignatureSpec)
        ensures
            sig.name@ == "nude image search"@,
            docker_command(sig),
            sig.required matches Some((n, h)) && n@ == "term"@ && h@
                == "Search term (matched against Docker Hub image names & descriptions)"@,
            sig.flags.deep_view() == search_flags_spec(search_filter_table()),
    {
        let filters = search_filters();
        search_signature(
            "nude image search",
            "Search term (matched against Docker Hub image names & descriptions)",
            &filters,
        )
    }

    /// Only `--output` is completable: the term is free text, and the
    /// filters are not enumerable.
    pub fn completion(&self, arg: &ArgKind) -> (r: CompletionSource)
        ensures
            r == output_completion_spec(arg.deep_view()),
    {
        output_completion(arg)
    }
}

/// The result count asked of the registry: the `--limit` given, narrowed to
/// the API's 32-bit field as a cast does; none leaves the daemon's default.
pub fn search_limit(limit: Option<i64>) -> (r: Option<i32>)
    ensures
        r == match limit {
            Some(l) => Some(l as i32),
            None => None::<i32>,
        },
{
    match limit {
        Some(l) => Some(#[verifier::truncate] (l as i32)),
        None => None,
    }
}

pub open spec fn hits_spec(hits: Seq<SearchHit>, fmt: OutputFormat) -> RenderingV {
    if fmt == OutputFormat::Full {
        RenderingV::Raw
    } else {
        RenderingV::Rows(hits.map_values(|h: SearchHit| search_row_spec(h)))
    }
}

/// What the search shows: the raw items for `full`, one row per hit
/// otherwise, in the registry's relevance order.
pub fn hits_rendering(hits: &Vec<SearchHit>, fmt: OutputFormat) -> (r: Rendering)
    ensures
        r.deep_view() == hits_spec(hits@, fmt),
{
    if fmt == OutputFormat::Full {
        return Rendering::Raw;
    }
    let mut rows: Vec<Row> = Vec::new();
    let mut i: usize = 0;
    while i < hits.len()
        invariant
            i <= hits@.len(),
            rows.deep_view() =~= hits@.take(i as int).map_values(|h: SearchHit| search_row_spec(h)),
        decreases hits@.len() - i,
    {
        let ghost before = rows.deep_view();
        rows.push(compact(&hits[i]));
        assert(rows.deep_view() =~= before.push(search_row_spec(hits@[i as int])));
        assert(hits@.take(i + 1) =~= hits@.take(i as int).push(hits@[i as int]));
        i = i + 1;
    }
    assert(hits@.take(i as int) =~= hits@);
    Rendering::Rows(rows)
}

} // verus!
