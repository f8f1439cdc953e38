//! `nude image ls` / `nude image inspect` — list images, or inspect one by
//! name/ID.
//!
//! Data source per output format:
//! - compact : list summaries, **exploded to one row per `repo:tag`** (a
//!   dangling/untagged image still gets one row) so every cell stays a
//!   primitive — matching `docker images`.
//! - wide    : the inspect payload, one row per image with list columns (tags,
//!   env, layers, …).
//! - full    : the inspect payload, converted verbatim (outside this library).

use vstd::prelude::*;

use crate::decorators::{labels_column, Decorators};
use crate::helpers::{
    epoch_date, epoch_date_spec, opt_filesize, opt_filesize_spec, opt_rfc3339, opt_rfc3339_spec,
    short_id, str_list, str_list_spec, str_opt, str_opt_spec,
};
use crate::text::{
    has_prefix, last_index_in_range, last_index_of, rsplit_once, slice, str_eq, strip_prefix,
    take_at_most,
};
use crate::completers::{
    is_output_flag, output_flag_name, ref_and_output, ref_and_output_spec, ArgKind, ArgKindV,
    CompletionSource, Suggestion, SuggestionV,
};
use crate::output::OutputFormat;
use crate::scaffold::{
    inspect_flags_spec, inspect_signature, list_flags_of, list_signature, CommandSpec, FilterArg,
    docker_command, Shape, SignatureSpec,
};
use crate::value::{
    put, Cell, CellV, ListPlan, ListPlanV, Rendering, RenderingV, Row, RowV, Scalar, ScalarV,
};

verus! {

/// `nude image ls`.
pub struct ImageLsCommand;

/// `nude image inspect`.
pub struct ImageInspectCommand;

// ---------------------------------------------------------------------------
// Reference parsing
// ---------------------------------------------------------------------------

/// A reference part, or `None` if empty or Docker's `<none>` placeholder.
pub open spec fn clean_spec(part: Seq<char>) -> Option<Seq<char>> {
    if part.len() > 0 && part != "<none>"@ {
        Some(part)
    } else {
        None
    }
}

/// A reference part, or `None` if empty or Docker's `<none>` placeholder.
pub fn clean(part: &str) -> (r: Option<&str>)
    ensures
        r.deep_view() == clean_spec(part@),
{
    if part.unicode_len() > 0 && !str_eq(part, "<none>") {
        Some(part)
    } else {
        None
    }
}

/// A reference cut at its last colon: everything before it, and the tag after
/// it (empty when there is no colon).
pub open spec fn ref_parts(r: Seq<char>) -> (Seq<char>, Seq<char>) {
    match last_index_of(r, ':') {
        Some(i) => (r.subrange(0, i), r.subrange(i + 1, r.len() as int)),
        None => (r, Seq::empty()),
    }
}

pub open spec fn split_ref_spec(r: Seq<char>) -> (Option<Seq<char>>, Option<Seq<char>>) {
    (clean_spec(ref_parts(r).0), clean_spec(ref_parts(r).1))
}

/// Split a Docker `repository:tag` reference. The tag is after the **last**
/// colon — a registry `host:port` colon is always followed by a `/path`, so it
/// is never the last one. Docker's `<none>` placeholder maps to `None`.
pub fn split_ref(reference: &str) -> (r: (Option<&str>, Option<&str>))
    ensures
        r.0.deep_view() == split_ref_spec(reference@).0,
        r.1.deep_view() == split_ref_spec(reference@).1,
{
    let (repo, tag) = match rsplit_once(reference, ':') {
        Some(parts) => parts,
        None => {
            let n = reference.unicode_len();
            let whole = slice(reference, 0, n);
            let none = slice(reference, 0, 0);
            assert(whole@ =~= reference@);
            assert(none@ =~= Seq::<char>::empty());
            (whole, none)
        },
    };
    (clean(repo), clean(tag))
}

/// The `sha256:` algorithm prefix Docker puts on image ids.
pub open spec fn sha256_prefix() -> Seq<char> {
    seq!['s', 'h', 'a', '2', '5', '6', ':']
}

/// An id without its `sha256:` prefix, when it has one.
pub open spec fn strip_sha256(id: Seq<char>) -> Seq<char> {
    if has_prefix(id, sha256_prefix()) {
        id.subrange(7, id.len() as int)
    } else {
        id
    }
}

/// An id without its `sha256:` prefix, when it has one.
pub fn strip_sha256_prefix(id: &str) -> (r: &str)
    ensures
        r@ == strip_sha256(id@),
{
    let p = "sha256:";
    proof {
        reveal_strlit("sha256:");
        assert(p@ =~= sha256_prefix());
    }
    match strip_prefix(id, p) {
        Some(rest) => rest,
        None => id,
    }
}

/// The short (12-char) form of an image id, dropping the `sha256:` algorithm
/// prefix Docker puts on summary/inspect ids.
pub fn short_image_id(id: &str) -> (r: String)
    ensures
        r@ == take_at_most(strip_sha256(id@), 12),
{
    short_id(strip_sha256_prefix(id))
}

// ---------------------------------------------------------------------------
// Compact (from a list summary, exploded per repo:tag)
// ---------------------------------------------------------------------------

/// What the image list endpoint reports of one image.
pub struct ImageSummary {
    pub id: String,
    pub repo_tags: Vec<String>,
    /// Creation time, in Unix epoch seconds.
    pub created: i64,
    pub size: i64,
    pub labels: Vec<(String, String)>,
}

/// The references an image is listed under: its tags, or the untagged
/// placeholder when it has none.
pub open spec fn listed_refs(tags: Seq<Seq<char>>) -> Seq<Seq<char>> {
    if tags.len() == 0 {
        seq!["<none>:<none>"@]
    } else {
        tags
    }
}

/// The compact row of an image under one reference.
pub open spec fn image_ref_row(img: ImageSummary, reference: Seq<char>, show_labels: bool) -> RowV {
    seq![
        ("repository"@, CellV::One(str_opt_spec(split_ref_spec(reference).0))),
        ("tag"@, CellV::One(str_opt_spec(split_ref_spec(reference).1))),
        ("id"@, CellV::One(str_opt_spec(Some(take_at_most(strip_sha256(img.id@), 12))))),
        ("created"@, CellV::One(epoch_date_spec(img.created))),
        ("size"@, CellV::One(ScalarV::Filesize(img.size as int))),
    ] + labels_column(show_labels, Some(img.labels.deep_view()))
}

pub open spec fn image_compact_spec(img: ImageSummary, show_labels: bool) -> Seq<RowV> {
    listed_refs(img.repo_tags.deep_view()).map_values(
        |r: Seq<char>| image_ref_row(img, r, show_labels),
    )
}

fn ref_row(img: &ImageSummary, id: &String, reference: &str, decorators: Decorators) -> (row: Row)
    requires
        id@ == take_at_most(strip_sha256(img.id@), 12),
    ensures
        row.deep_view() == image_ref_row(*img, reference@, decorators.shows_labels()),
{
    let (repository, tag) = split_ref(reference);
    let mut row: Row = Vec::new();
    put(&mut row, "repository", Cell::One(str_opt(repository)));
    put(&mut row, "tag", Cell::One(str_opt(tag)));
    put(&mut row, "id", Cell::One(str_opt(Some(id.as_str()))));
    put(&mut row, "created", Cell::One(epoch_date(img.created)));
    put(&mut row, "size", Cell::One(Scalar::Filesize(img.size)));
    decorators.apply_labels(&mut row, Some(&img.labels));
    assert(row.deep_view() =~= image_ref_row(*img, reference@, decorators.shows_labels()));
    row
}

/// The compact rows of one image: one per `repo:tag`; an untagged image still
/// gets a single (dangling) row.
pub fn compact_rows(img: &ImageSummary, decorators: Decorators) -> (rows: Vec<Row>)
    ensures
        rows.deep_view() == image_compact_spec(*img, decorators.shows_labels()),
        rows@.len() == if img.repo_tags@.len() == 0 {
            1
        } else {
            img.repo_tags@.len()
        },
{
    let id = short_image_id(img.id.as_str());
    let mut rows: Vec<Row> = Vec::new();
    let ghost show = decorators.shows_labels();
    if img.repo_tags.len() == 0 {
        let dangling = "<none>:<none>";
        rows.push(ref_row(img, &id, dangling, decorators));
        assert(rows.deep_view() =~= image_compact_spec(*img, show));
    } else {
        let ghost tags = img.repo_tags.deep_view();
        let mut i: usize = 0;
        while i < img.repo_tags.len()
            invariant
                i <= img.repo_tags@.len(),
                tags == img.repo_tags.deep_view(),
                tags.len() > 0,
                show == decorators.shows_labels(),
                id@ == take_at_most(strip_sha256(img.id@), 12),
                rows.deep_view() =~= tags.take(i as int).map_values(
                    |r: Seq<char>| image_ref_row(*img, r, show),
                ),
            decreases img.repo_tags@.len() - i,
        {
            let ghost before = rows.deep_view();
            rows.push(ref_row(img, &id, img.repo_tags[i].as_str(), decorators));
            assert(rows.deep_view() =~= before.push(image_ref_row(*img, tags[i as int], show)));
            assert(tags.take(i + 1) =~= tags.take(i as int).push(tags[i as int]));
            assert(tags.take(i + 1).map_values(|r: Seq<char>| image_ref_row(*img, r, show))
                =~= tags.take(i as int).map_values(|r: Seq<char>| image_ref_row(*img, r, show)).push(
                image_ref_row(*img, tags[i as int], show),
            ));
            i = i + 1;
        }
        assert(tags.take(i as int) =~= tags);
    }
    rows
}

// ---------------------------------------------------------------------------
// Wide (from an inspect response, one row per image)
// ---------------------------------------------------------------------------

/// What the image inspect endpoint reports of one image, flattened: the
/// fields of its config and root filesystem are `None` when those are.
pub struct ImageDetails {
    pub id: Option<String>,
    pub repo_tags: Option<Vec<String>>,
    pub repo_digests: Option<Vec<String>>,
    pub size: Option<i64>,
    pub created: Option<String>,
    pub architecture: Option<String>,
    pub os: Option<String>,
    pub author: Option<String>,
    pub cmd: Option<Vec<String>>,
    pub entrypoint: Option<Vec<String>>,
    pub env: Option<Vec<String>>,
    pub exposed_ports: Option<Vec<String>>,
    pub working_dir: Option<String>,
    pub layers: Option<Vec<String>>,
    pub labels: Option<Vec<(String, String)>>,
}

pub open spec fn short_image_id_opt(id: Option<Seq<char>>) -> Option<Seq<char>> {
    match id {
        Some(i) => Some(take_at_most(strip_sha256(i), 12)),
        None => None,
    }
}

pub open spec fn image_wide_spec(img: ImageDetails, show_labels: bool) -> RowV {
    seq![
        ("id"@, CellV::One(str_opt_spec(short_image_id_opt(img.id.deep_view())))),
        ("repo_tags"@, str_list_spec(img.repo_tags.deep_view())),
        ("repo_digests"@, str_list_spec(img.repo_digests.deep_view())),
        ("size"@, CellV::One(opt_filesize_spec(img.size))),
        ("created"@, CellV::One(opt_rfc3339_spec(img.created.deep_view()))),
        ("architecture"@, CellV::One(str_opt_spec(img.architecture.deep_view()))),
        ("os"@, CellV::One(str_opt_spec(img.os.deep_view()))),
        ("author"@, CellV::One(str_opt_spec(img.author.deep_view()))),
        ("command"@, str_list_spec(img.cmd.deep_view())),
        ("entrypoint"@, str_list_spec(img.entrypoint.deep_view())),
        ("env"@, str_list_spec(img.env.deep_view())),
        ("exposed_ports"@, str_list_spec(img.exposed_ports.deep_view())),
        ("working_dir"@, CellV::One(str_opt_spec(img.working_dir.deep_view()))),
        ("layers"@, str_list_spec(img.layers.deep_view())),
    ] + labels_column(show_labels, img.labels.deep_view())
}

fn opt_as_str(s: &Option<String>) -> (r: Option<&str>)
    ensures
        r.deep_view() == s.deep_view(),
{
    match s {
        Some(t) => Some(t.as_str()),
        None => None,
    }
}

/// One wide row: id, tags, digests, size, created, platform, config, layers.
#[verifier::rlimit(40)]
pub fn wide(img: &ImageDetails, decorators: Decorators) -> (row: Row)
    ensures
        row.deep_view() == image_wide_spec(*img, decorators.shows_labels()),
{
    let id = match &img.id {
        Some(i) => Some(short_image_id(i.as_str())),
        None => None,
    };
    let mut row: Row = Vec::new();
    put(&mut row, "id", Cell::One(str_opt(opt_as_str(&id))));
    put(&mut row, "repo_tags", str_list(img.repo_tags.as_ref()));
    put(&mut row, "repo_digests", str_list(img.repo_digests.as_ref()));
    put(&mut row, "size", Cell::One(opt_filesize(img.size)));
    put(&mut row, "created", Cell::One(opt_rfc3339(opt_as_str(&img.created))));
    put(&mut row, "architecture", Cell::One(str_opt(opt_as_str(&img.architecture))));
    put(&mut row, "os", Cell::One(str_opt(opt_as_str(&img.os))));
    put(&mut row, "author", Cell::One(str_opt(opt_as_str(&img.author))));
    put(&mut row, "command", str_list(img.cmd.as_ref()));
    put(&mut row, "entrypoint", str_list(img.entrypoint.as_ref()));
    put(&mut row, "env", str_list(img.env.as_ref()));
    put(&mut row, "exposed_ports", str_list(img.exposed_ports.as_ref()));
    put(&mut row, "working_dir", Cell::One(str_opt(opt_as_str(&img.working_dir))));
    put(&mut row, "layers", str_list(img.layers.as_ref()));
    decorators.apply_labels(&mut row, img.labels.as_ref());
    assert(row.deep_view() =~= image_wide_spec(*img, decorators.shows_labels()));
    row
}

// ---------------------------------------------------------------------------
// The commands
// ---------------------------------------------------------------------------

/// Docker's image list filters — the single source of truth for both the
/// signature and the request builder.
pub open spec fn image_filter_table() -> Seq<FilterArg> {
    seq![
        FilterArg {
            flag: "reference",
            api_key: "reference",
            shape: Shape::Str,
            help: "Reference pattern (name[:tag], e.g. `nginx` or `ngin*`)",
        },
        FilterArg {
            flag: "before",
            api_key: "before",
            shape: Shape::Str,
            help: "Created before this image (name or id)",
        },
        FilterArg {
            flag: "since",
            api_key: "since",
            shape: Shape::Str,
            help: "Created since this image (name or id)",
        },
        FilterArg {
            flag: "dangling",
            api_key: "dangling",
            shape: Shape::Switch,
            help: "Only dangling (untagged) images",
        },
        FilterArg {
            flag: "labels",
            api_key: "label",
            shape: Shape::Labels,
            help: "Labels, comma-separated: `key` or `key=value` (e.g. `a=b,c=d`)",
        },
    ]
}

/// The image list filters.
pub fn image_filters() -> (v: Vec<FilterArg>)
    ensures
        v@ == image_filter_table(),
{
    let v = vec![
        FilterArg::string("reference", "Reference pattern (name[:tag], e.g. `nginx` or `ngin*`)"),
        FilterArg::string("before", "Created before this image (name or id)"),
        FilterArg::string("since", "Created since this image (name or id)"),
        FilterArg::switch("dangling", "Only dangling (untagged) images"),
        FilterArg::labels(),
    ];
    assert(v@ =~= image_filter_table());
    v
}

pub open spec fn image_ls_completion_spec(arg: ArgKindV) -> CompletionSource {
    match arg {
        ArgKindV::Flag(n) => if is_output_flag(n) {
            CompletionSource::OutputFormats
        } else if n == "reference"@ || n == "before"@ || n == "since"@ {
            CompletionSource::ImageRefs
        } else if n == "labels"@ {
            CompletionSource::ImageLabels
        } else {
            CompletionSource::Nothing
        },
        ArgKindV::Positional(_) => CompletionSource::Nothing,
    }
}

impl ImageLsCommand {
    pub fn name(&self) -> (r: &'static str)
        ensures
            r@ == "nude image ls"@,
    {
        "nude image ls"
    }

    pub fn description(&self) -> (r: &'static str)
        ensures
            r@ == "List images"@,
    {
        "List images"
    }

    /// `--output`, `--all`, `--show-labels`, and one flag per filter.
    pub fn signature(&self) -> (sig: SignatureSpec)
        ensures
            sig.name@ == "nude image ls"@,
            docker_command(sig),
            sig.required is None,
            sig.flags.deep_view() == list_flags_of(
                Some("Include intermediate (layer) images"),
                true,
                "image"@,
                image_filter_table(),
            ),
    {
        list_signature(
            &CommandSpec {
                cmd: "nude image ls",
                noun: "image",
                all_help: Some("Include intermediate (layer) images"),
                show_labels: true,
                filters: image_filters(),
            },
        )
    }

    /// Image references for the three filters that name an image, the
    /// images' labels for `--labels`; `--dangling` has no useful completion.
    pub fn completion(&self, arg: &ArgKind) -> (r: CompletionSource)
        ensures
            r == image_ls_completion_spec(arg.deep_view()),
    {
        match arg {
            ArgKind::Flag(n) => {
                let n = n.as_str();
                if output_flag_name(n) {
                    CompletionSource::OutputFormats
                } else if str_eq(n, "reference") || str_eq(n, "before") || str_eq(n, "since") {
                    CompletionSource::ImageRefs
                } else if str_eq(n, "labels") {
                    CompletionSource::ImageLabels
                } else {
                    CompletionSource::Nothing
                }
            },
            ArgKind::Positional(_) => CompletionSource::Nothing,
        }
    }
}

impl ImageInspectCommand {
    pub fn name(&self) -> (r: &'static str)
        ensures
            r@ == "nude image inspect"@,
    {
        "nude image inspect"
    }

    pub fn description(&self) -> (r: &'static str)
        ensures
            r@ == "Inspect an image by name/ID"@,
    {
        "Inspect an image by name/ID"
    }

    /// The image reference, `--output` and `--show-labels`.
    pub fn signature(&self) -> (sig: SignatureSpec)
        ensures
            sig.name@ == "nude image inspect"@,
            docker_command(sig),
            sig.required matches Some((n, h)) && n@ == "name"@ && h@
                == "Image reference (repo:tag) or ID"@,
            sig.flags.deep_view() == inspect_flags_spec(Some("image"@)),
    {
        inspect_signature("nude image inspect", "Image reference (repo:tag) or ID", Some("image"))
    }

    /// Image references for the positional, formats for `--output`.
    pub fn completion(&self, arg: &ArgKind) -> (r: CompletionSource)
        ensures
            r == ref_and_output_spec(arg.deep_view(), CompletionSource::ImageRefs),
    {
        ref_and_output(arg, CompletionSource::ImageRefs)
    }
}

pub open spec fn image_list_plan_spec(summaries: Seq<ImageSummary>, fmt: OutputFormat, show: bool) -> ListPlanV {
    if fmt == OutputFormat::Compact {
        ListPlanV::Rows(summaries.flat_map(|i: ImageSummary| image_compact_spec(i, show)))
    } else {
        ListPlanV::Inspect(summaries.map_values(|i: ImageSummary| i.id@))
    }
}

/// The decision `ls` takes once the daemon has listed the images: compact
/// explodes each image into one row per `repo:tag`; `wide`/`full` inspect
/// every listed image.
pub fn list_plan(summaries: &Vec<ImageSummary>, fmt: OutputFormat, decorators: Decorators) -> (r:
    ListPlan)
    ensures
        r.deep_view() == image_list_plan_spec(summaries@, fmt, decorators.shows_labels()),
{
    let ghost show = decorators.shows_labels();
    let ghost f = |i: ImageSummary| image_compact_spec(i, show);
    if fmt == OutputFormat::Compact {
        let mut rows: Vec<Row> = Vec::new();
        let mut i: usize = 0;
        while i < summaries.len()
            invariant
                i <= summaries@.len(),
                show == decorators.shows_labels(),
                f == (|i: ImageSummary| image_compact_spec(i, show)),
                rows.deep_view() =~= summaries@.take(i as int).flat_map(f),
            decreases summaries@.len() - i,
        {
            let ghost before = rows.deep_view();
            let mut more = compact_rows(&summaries[i], decorators);
            let ghost added = more.deep_view();
            rows.append(&mut more);
            assert(rows.deep_view() =~= before + added);
            proof {
                summaries@.lemma_flat_map_take_append(f, i as int);
            }
            i = i + 1;
        }
        assert(summaries@.take(i as int) =~= summaries@);
        ListPlan::Rows(rows)
    } else {
        let mut ids: Vec<String> = Vec::new();
        let mut i: usize = 0;
        while i < summaries.len()
            invariant
                i <= summaries@.len(),
                ids.deep_view() =~= summaries@.take(i as int).map_values(|i: ImageSummary| i.id@),
            decreases summaries@.len() - i,
        {
            let ghost before = ids.deep_view();
            ids.push(summaries[i].id.clone());
            assert(ids.deep_view() =~= before.push(summaries@[i as int].id@));
            assert(summaries@.take(i + 1) =~= summaries@.take(i as int).push(summaries@[i as int]));
            i = i + 1;
        }
        assert(summaries@.take(i as int) =~= summaries@);
        ListPlan::Inspect(ids)
    }
}

pub open spec fn inspected_spec(details: Seq<ImageDetails>, fmt: OutputFormat, show: bool) -> RenderingV {
    if fmt == OutputFormat::Full {
        RenderingV::Raw
    } else {
        RenderingV::Rows(details.map_values(|d: ImageDetails| image_wide_spec(d, show)))
    }
}

/// What `ls -o wide|full` and `inspect` show of the inspected images: the
/// raw payloads for `full`, wide rows otherwise.
pub fn inspected_rendering(details: &Vec<ImageDetails>, fmt: OutputFormat, decorators: Decorators) -> (r: Rendering)
    ensures
        r.deep_view() == inspected_spec(details@, fmt, decorators.shows_labels()),
{
    if fmt == OutputFormat::Full {
        return Rendering::Raw;
    }
    let ghost show = decorators.shows_labels();
    let mut rows: Vec<Row> = Vec::new();
    let mut i: usize = 0;
    while i < details.len()
        invariant
            i <= details@.len(),
            show == decorators.shows_labels(),
            rows.deep_view() =~= details@.take(i as int).map_values(
                |d: ImageDetails| image_wide_spec(d, show),
            ),
        decreases details@.len() - i,
    {
        let ghost before = rows.deep_view();
        rows.push(wide(&details[i], decorators));
        assert(rows.deep_view() =~= before.push(image_wide_spec(details@[i as int], show)));
        assert(details@.take(i + 1) =~= details@.take(i as int).push(details@[i as int]));
        i = i + 1;
    }
    assert(details@.take(i as int) =~= details@);
    Rendering::Rows(rows)
}

// ---------------------------------------------------------------------------
// Live candidates
// ---------------------------------------------------------------------------

/// A tag as a candidate, unless it is the untagged placeholder.
pub open spec fn tag_candidate(t: Seq<char>) -> Option<SuggestionV> {
    if t != "<none>:<none>"@ {
        Some(SuggestionV { value: t, description: None, append_whitespace: true })
    } else {
        None
    }
}

/// The candidates an image offers: its tags but the untagged placeholder.
pub open spec fn offered_refs(img: ImageSummary) -> Seq<SuggestionV> {
    img.repo_tags.deep_view().filter_map(|t: Seq<char>| tag_candidate(t))
}

/// Live image references (`repo:tag`), skipping the untagged `<none>:<none>`
/// placeholder. Also feeds container's `--ancestor`.
pub fn complete_refs(images: &Vec<ImageSummary>) -> (r: Vec<Suggestion>)
    ensures
        r.deep_view() == images@.flat_map(|i: ImageSummary| offered_refs(i)),
{
    let ghost f = |i: ImageSummary| offered_refs(i);
    let mut out: Vec<Suggestion> = Vec::new();
    let mut i: usize = 0;
    while i < images.len()
        invariant
            i <= images@.len(),
            f == (|i: ImageSummary| offered_refs(i)),
            out.deep_view() =~= images@.take(i as int).flat_map(f),
        decreases images@.len() - i,
    {
        let img = &images[i];
        let ghost tags = img.repo_tags.deep_view();
        let ghost before = out.deep_view();
        let mut j: usize = 0;
        while j < img.repo_tags.len()
            invariant
                j <= tags.len(),
                tags == img.repo_tags.deep_view(),
                out.deep_view() =~= before + tags.take(j as int).filter_map(
                    |t: Seq<char>| tag_candidate(t),
                ),
            decreases tags.len() - j,
        {
            let t = &img.repo_tags[j];
            let ghost prev = out.deep_view();
            assert(tags.take(j + 1).drop_last() =~= tags.take(j as int));
            if !str_eq(t.as_str(), "<none>:<none>") {
                let s = Suggestion { value: t.clone(), description: None, append_whitespace: true };
                let ghost sv = s.deep_view();
                out.push(s);
                assert(out.deep_view() =~= prev.push(sv));
            }
            j = j + 1;
        }
        proof {
            assert(tags.take(j as int) =~= tags);
            images@.lemma_flat_map_take_append(f, i as int);
        }
        i = i + 1;
    }
    assert(images@.take(i as int) =~= images@);
    out
}

} // verus!
