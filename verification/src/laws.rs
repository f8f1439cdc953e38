//! Properties of the library as a whole: what the output modes promise, how
//! filter flags and filter requests stay in step, how references and flag
//! values are taken apart, and how `--labels` completion behaves.

use vstd::prelude::*;

use crate::commands::container::{
    container_compact_spec, container_filter_table, container_wide_spec, status_exit_code_spec, ContainerDetails,
    ContainerSummary,
};
use crate::commands::detail::{
    diff_spec, history_id_spec, history_row_spec, history_spec, top_spec, FilesystemChange,
    HistoryItem,
};
use crate::commands::image::{
    clean_spec, image_compact_spec, image_list_plan_spec, image_ref_row, image_wide_spec,
    offered_refs, ref_parts, split_ref_spec, tag_candidate, ImageDetails, ImageSummary,
};
use crate::commands::image::image_filter_table;
use crate::commands::plugin::{plugin_filter_table, plugin_head_spec, Plugin};
use crate::commands::search::{hits_spec, search_filter_table, SearchHit};
use crate::commands::system::{info_record_spec, version_record_spec, SystemInfo, SystemVersion};
use crate::commands::volume::{
    volume_compact_spec, volume_filter_table, volume_wide_spec, Volume,
};
use crate::completers::{
    committed_part, has_label, label_filter_spec, last_part, lookup, LabelIndex, SuggestionV,
};
use crate::decorators::labels_column;
use crate::helpers::{opt_rfc3339_spec, str_map_spec, zero_time_prefix};
use crate::output::{format_named, resolved_format, OutputFormat};
use crate::scaffold::{collected, filter_entry, filter_flag, filter_flags, list_flags_spec, CommandSpec, FilterArg, FlagValueV};
use crate::text::{
    csv_parts, csv_piece, drop_leading, is_digit, lemma_decimal_reads_back, lemma_first_index_of,
    lemma_last_index_of, nat_decimal, first_index_in_range, first_index_of, has_prefix,
    is_ws, last_index_in_range, last_index_of, nonempty_trimmed, split_seq, take_at_most,
    trim_spec,
};
use crate::value::{CellV, ListPlanV, RowV, ScalarV};

verus! {

// ---------------------------------------------------------------------------
// Output modes
// ---------------------------------------------------------------------------

/// Every cell of the row is a primitive.
pub open spec fn flat(r: RowV) -> bool {
    forall|i: int| 0 <= i < r.len() ==> (#[trigger] r[i]).1 is One
}

/// Compact output is flat rows of primitive cells only: a container's compact
/// row, without the `labels` decorator, holds scalars alone.
pub proof fn law_container_compact_is_flat(c: ContainerSummary)
    ensures
        flat(container_compact_spec(c, false)),
{
    assert(labels_column(false, c.labels.deep_view()) =~= Seq::<(Seq<char>, CellV)>::empty());
}

/// Compact output is flat: each of an image's compact rows, without the
/// `labels` decorator, holds scalars alone.
pub proof fn law_image_compact_is_flat(img: ImageSummary)
    ensures
        forall|i: int|
            0 <= i < image_compact_spec(img, false).len() ==> flat(
                #[trigger] image_compact_spec(img, false)[i],
            ),
{
    assert(labels_column(false, Some(img.labels.deep_view())) =~= Seq::<(Seq<char>, CellV)>::empty());
}

/// Compact output is flat: a volume's compact row, without the `labels`
/// decorator, holds scalars alone.
pub proof fn law_volume_compact_is_flat(v: Volume)
    ensures
        flat(volume_compact_spec(v, false)),
{
    assert(labels_column(false, Some(v.labels.deep_view())) =~= Seq::<(Seq<char>, CellV)>::empty());
}

/// Compact output is flat: a plugin's compact row holds scalars alone.
pub proof fn law_plugin_compact_is_flat(p: Plugin)
    ensures
        flat(plugin_head_spec(p)),
{
}

/// Compact output is flat: a history row holds scalars alone.
pub proof fn law_history_compact_is_flat(h: HistoryItem)
    ensures
        flat(history_row_spec(h)),
{
    assert(history_row_spec(h) =~= seq![
        ("id"@, CellV::One(history_id_spec(h.id@))),
        ("created"@, CellV::One(crate::helpers::epoch_date_spec(h.created))),
        ("created_by"@, CellV::One(crate::helpers::str_opt_spec(Some(h.created_by@)))),
        ("size"@, CellV::One(ScalarV::Filesize(h.size as int))),
        ("comment"@, CellV::One(crate::helpers::str_opt_spec(Some(h.comment@)))),
    ]);
}

/// Compact output is flat: the compact `system info` record holds scalars
/// alone.
pub proof fn law_info_compact_is_flat(i: SystemInfo)
    ensures
        flat(info_record_spec(i, false)),
{
    let r = info_record_spec(i, false);
    assert forall|k: int| 0 <= k < r.len() implies (#[trigger] r[k]).1 is One by {
        assert(r.len() == 14);
    }
}

/// Compact output is flat: the compact `system version` record holds scalars
/// alone.
pub proof fn law_version_compact_is_flat(v: SystemVersion)
    ensures
        flat(version_record_spec(v, false)),
{
    let r = version_record_spec(v, false);
    assert forall|k: int| 0 <= k < r.len() implies (#[trigger] r[k]).1 is One by {
        assert(r.len() == 9);
    }
}

/// The name `--output` takes for each format.
pub open spec fn format_name(f: OutputFormat) -> Seq<char> {
    match f {
        OutputFormat::Compact => "compact"@,
        OutputFormat::Wide => "wide"@,
        OutputFormat::Full => "full"@,
    }
}

/// `--output` accepts each format by its name.
pub proof fn law_format_names_round_trip(f: OutputFormat)
    ensures
        format_named(format_name(f)) == Some(f),
        resolved_format(Some(format_name(f)), true) == f,
        resolved_format(Some(format_name(f)), false) == f,
{
    reveal_strlit("compact");
    reveal_strlit("wide");
    reveal_strlit("full");
    assert("wide"@.len() != "compact"@.len());
    assert("full"@.len() != "compact"@.len());
    assert("full"@[0] != "wide"@[0]);
}

/// Without a usable `--output`, a named lookup shows `wide` and a list shows
/// `compact`.
pub proof fn law_output_defaults(flag: Option<Seq<char>>)
    requires
        flag matches Some(s) ==> format_named(s) is None,
    ensures
        resolved_format(flag, true) == OutputFormat::Wide,
        resolved_format(flag, false) == OutputFormat::Compact,
{
}

// ---------------------------------------------------------------------------
// Timestamps and ids
// ---------------------------------------------------------------------------

/// Docker's "zero" timestamp (`0001-01-01…`, never started/finished) is
/// nothing, whatever follows it.
pub proof fn law_zero_time_is_nothing(s: Seq<char>)
    requires
        has_prefix(s, zero_time_prefix()),
    ensures
        opt_rfc3339_spec(Some(s)) == ScalarV::Nothing,
{
}

/// Docker's `<missing>` layer id is nothing.
pub proof fn law_missing_layer_is_nothing()
    ensures
        history_id_spec("<missing>"@) == ScalarV::Nothing,
{
    reveal_strlit("<missing>");
    assert(!has_prefix("<missing>"@, crate::commands::image::sha256_prefix()));
}

/// A short id is the id's first twelve characters, and shortening it again
/// changes nothing.
pub proof fn law_short_id_is_a_prefix(id: Seq<char>)
    ensures
        take_at_most(id, 12).len() == if id.len() <= 12 {
            id.len()
        } else {
            12
        },
        has_prefix(id, take_at_most(id, 12)),
        take_at_most(take_at_most(id, 12), 12) == take_at_most(id, 12),
{
    assert(id.subrange(0, take_at_most(id, 12).len() as int) =~= take_at_most(id, 12));
}

proof fn lemma_drop_leading_clean(s: Seq<char>, c: char)
    ensures
        drop_leading(s, c).len() > 0 ==> drop_leading(s, c)[0] != c,
    decreases s.len(),
{
    if s.len() > 0 && s[0] == c {
        lemma_drop_leading_clean(s.drop_first(), c);
    }
}

/// A cleaned container name never starts with `/`.
pub proof fn law_clean_name_has_no_leading_slash(name: Seq<char>)
    ensures
        drop_leading(name, '/').len() > 0 ==> drop_leading(name, '/')[0] != '/',
{
    lemma_drop_leading_clean(name, '/');
}

// ---------------------------------------------------------------------------
// References
// ---------------------------------------------------------------------------

/// A reference splits at its **last** colon: when both parts are real, the
/// repository, a colon and the tag give the reference back, and the tag
/// holds no colon (so a registry `host:port` stays in the repository).
pub proof fn law_split_ref_rejoins(r: Seq<char>)
    requires
        split_ref_spec(r).0 is Some,
        split_ref_spec(r).1 is Some,
    ensures
        split_ref_spec(r).0->0 + seq![':'] + split_ref_spec(r).1->0 == r,
        !split_ref_spec(r).1->0.contains(':'),
{
    last_index_in_range(r, ':');
    match last_index_of(r, ':') {
        Some(i) => {
            let tag = r.subrange(i + 1, r.len() as int);
            assert(r.subrange(0, i) + seq![':'] + tag =~= r);
            assert forall|j: int| 0 <= j < tag.len() implies tag[j] != ':' by {
                assert(tag[j] == r[i + 1 + j]);
            }
        },
        None => {
            assert(ref_parts(r).1 =~= Seq::<char>::empty());
        },
    }
}

// ---------------------------------------------------------------------------
// `--labels` values
// ---------------------------------------------------------------------------

proof fn lemma_split_pieces_comma_free(s: Seq<char>)
    ensures
        forall|i: int, j: int|
            0 <= i < split_seq(s, ',').len() && 0 <= j < split_seq(s, ',')[i].len() ==> (
            #[trigger] split_seq(s, ',')[i][j]) != ',',
    decreases s.len(),
{
    if s.len() > 0 {
        let prev = split_seq(s.drop_last(), ',');
        lemma_split_pieces_comma_free(s.drop_last());
        crate::text::lemma_split_nonempty(s.drop_last(), ',');
        if s.last() != ',' {
            let cur = split_seq(s, ',');
            assert forall|i: int, j: int|
                0 <= i < cur.len() && 0 <= j < cur[i].len() implies (#[trigger] cur[i][j]) != ',' by {
                if i == prev.len() - 1 {
                    if j < prev.last().len() {
                        assert(cur[i][j] == prev[i][j]);
                    }
                } else {
                    assert(cur[i] == prev[i]);
                }
            }
        } else {
            let cur = split_seq(s, ',');
            assert forall|i: int, j: int|
                0 <= i < cur.len() && 0 <= j < cur[i].len() implies (#[trigger] cur[i][j]) != ',' by {
                if i < prev.len() {
                    assert(cur[i] == prev[i]);
                }
            }
        }
    }
}

proof fn lemma_trim_is_inner(s: Seq<char>)
    ensures
        exists|a: int, b: int| 0 <= a <= b <= s.len() && trim_spec(s) == s.subrange(a, b),
        trim_spec(s).len() > 0 ==> !is_ws(trim_spec(s)[0]) && !is_ws(trim_spec(s).last()),
    decreases s.len(),
{
    if s.len() > 0 && is_ws(s[0]) {
        let t = s.drop_first();
        lemma_trim_is_inner(t);
        let (a, b) = choose|a: int, b: int| 0 <= a <= b <= t.len() && trim_spec(t) == t.subrange(a, b);
        assert(t.subrange(a, b) =~= s.subrange(a + 1, b + 1));
    } else if s.len() > 0 && is_ws(s.last()) {
        let t = s.drop_last();
        lemma_trim_is_inner(t);
        let (a, b) = choose|a: int, b: int| 0 <= a <= b <= t.len() && trim_spec(t) == t.subrange(a, b);
        assert(t.subrange(a, b) =~= s.subrange(a, b));
    } else {
        assert(s.subrange(0, s.len() as int) =~= s);
    }
}

proof fn lemma_filter_map_from(s: Seq<Seq<char>>, k: int)
    requires
        0 <= k < s.filter_map(csv_piece()).len(),
    ensures
        exists|i: int|
            0 <= i < s.len() && nonempty_trimmed(s[i]) == Some(
                #[trigger] s.filter_map(csv_piece())[k],
            ),
    decreases s.len(),
{
    let rest = s.drop_last();
    if s.len() > 0 {
        match nonempty_trimmed(s.last()) {
            Some(t) => {
                if k < rest.filter_map(csv_piece()).len() {
                    lemma_filter_map_from(rest, k);
                    let i = choose|i: int|
                        0 <= i < rest.len() && nonempty_trimmed(rest[i]) == Some(
                            #[trigger] rest.filter_map(csv_piece())[k],
                        );
                    assert(s[i] == rest[i]);
                } else {
                    assert(s.filter_map(csv_piece())[k] == t);
                    assert(nonempty_trimmed(s[s.len() - 1]) == Some(t));
                }
            },
            None => {
                lemma_filter_map_from(rest, k);
                let i = choose|i: int|
                    0 <= i < rest.len() && nonempty_trimmed(rest[i]) == Some(
                        #[trigger] rest.filter_map(csv_piece())[k],
                    );
                assert(s[i] == rest[i]);
            },
        }
    }
}

/// Each part `--labels` is split into is non-empty, holds no comma, and has
/// no surrounding whitespace (trimming it again changes nothing); there is at
/// most one part more than there are commas.
pub proof fn law_csv_parts_are_clean(s: Seq<char>)
    ensures
        csv_parts(s).len() <= crate::text::char_count(s, ',') + 1,
        forall|k: int|
            0 <= k < csv_parts(s).len() ==> {
                let p = #[trigger] csv_parts(s)[k];
                &&& p.len() > 0
                &&& !p.contains(',')
                &&& trim_spec(p) == p
            },
{
    let pieces = split_seq(s, ',');
    crate::text::lemma_split_count(s, ',');
    crate::text::lemma_csv_pieces_at_most(pieces);
    lemma_split_pieces_comma_free(s);
    assert forall|k: int| 0 <= k < csv_parts(s).len() implies {
        let p = #[trigger] csv_parts(s)[k];
        &&& p.len() > 0
        &&& !p.contains(',')
        &&& trim_spec(p) == p
    } by {
        lemma_filter_map_from(pieces, k);
        let i = choose|i: int|
            0 <= i < pieces.len() && nonempty_trimmed(pieces[i]) == Some(
                #[trigger] pieces.filter_map(csv_piece())[k],
            );
        let piece = pieces[i];
        let p = csv_parts(s)[k];
        assert(p == trim_spec(piece));
        lemma_trim_is_inner(piece);
        let (a, b) = choose|a: int, b: int|
            0 <= a <= b <= piece.len() && trim_spec(piece) == piece.subrange(a, b);
        assert forall|j: int| 0 <= j < p.len() implies p[j] != ',' by {
            assert(p[j] == piece[a + j]);
            assert(pieces[i][a + j] != ',');
        }
        assert(p.len() > 0);
        assert(!is_ws(p[0]) && !is_ws(p.last()));
        assert(trim_spec(p) == p);
    }
}

// ---------------------------------------------------------------------------
// Filter flags and filter requests
// ---------------------------------------------------------------------------

proof fn lemma_collected_from_table(fs: Seq<FilterArg>, vs: Seq<FlagValueV>, n: nat)
    requires
        n <= fs.len(),
        vs.len() == fs.len(),
    ensures
        forall|j: int|
            0 <= j < collected(fs, vs, n).len() ==> exists|i: int|
                0 <= i < n && filter_entry(fs[i], vs[i]) == Some(
                    #[trigger] collected(fs, vs, n)[j],
                ),
    decreases n,
{
    if n > 0 {
        lemma_collected_from_table(fs, vs, (n - 1) as nat);
        let prev = collected(fs, vs, (n - 1) as nat);
        let cur = collected(fs, vs, n);
        assert forall|j: int| 0 <= j < cur.len() implies exists|i: int|
            0 <= i < n && filter_entry(fs[i], vs[i]) == Some(#[trigger] cur[j]) by {
            if j < prev.len() {
                assert(cur[j] == prev[j]);
                let i = choose|i: int| 0 <= i < n - 1 && filter_entry(fs[i], vs[i]) == Some(
                    #[trigger] prev[j],
                );
                assert(filter_entry(fs[i], vs[i]) == Some(cur[j]));
            } else {
                assert(filter_entry(fs[n - 1], vs[n - 1]) == Some(cur[j]));
            }
        }
    }
}

/// A filter request and the signature are driven by the same table: every
/// key the request carries is the API key of a filter of the table, and the
/// `ls` signature built from that table has that filter's flag.
pub proof fn law_filter_requests_match_the_signature(spec: CommandSpec, vs: Seq<FlagValueV>)
    requires
        vs.len() == spec.filters@.len(),
    ensures
        forall|j: int|
            0 <= j < collected(spec.filters@, vs, spec.filters@.len()).len() ==> exists|i: int|
                0 <= i < spec.filters@.len() && (#[trigger] collected(
                    spec.filters@,
                    vs,
                    spec.filters@.len(),
                )[j]).0 == spec.filters@[i].api_key@ && list_flags_spec(spec).contains(
                    filter_flag(spec.filters@[i]),
                ),
{
    let fs = spec.filters@;
    let n = fs.len();
    lemma_collected_from_table(fs, vs, n);
    let flags = list_flags_spec(spec);
    let head = flags.len() - fs.len();
    assert(filter_flags(fs).len() == fs.len());
    assert forall|j: int| 0 <= j < collected(fs, vs, n).len() implies exists|i: int|
        0 <= i < fs.len() && (#[trigger] collected(fs, vs, n)[j]).0 == fs[i].api_key@
            && flags.contains(filter_flag(fs[i])) by {
        let i = choose|i: int| 0 <= i < n && filter_entry(fs[i], vs[i]) == Some(
            #[trigger] collected(fs, vs, n)[j],
        );
        assert(collected(fs, vs, n)[j].0 == fs[i].api_key@);
        assert(flags[head + i] == filter_flags(fs)[i]);
        assert(flags.contains(filter_flag(fs[i])));
    }
}

/// No two filters of a table share an API key.
pub open spec fn distinct_keys(fs: Seq<FilterArg>) -> bool {
    forall|i: int, j: int| 0 <= i < j < fs.len() ==> fs[i].api_key@ != fs[j].api_key@
}

/// No key comes twice among a request's entries.
pub open spec fn distinct_entry_keys(e: Seq<(Seq<char>, Seq<Seq<char>>)>) -> bool {
    forall|i: int, j: int| 0 <= i < j < e.len() ==> e[i].0 != e[j].0
}

proof fn lemma_collected_keys(fs: Seq<FilterArg>, vs: Seq<FlagValueV>, n: nat)
    requires
        n <= fs.len(),
        vs.len() == fs.len(),
        distinct_keys(fs),
    ensures
        distinct_entry_keys(collected(fs, vs, n)),
        forall|j: int|
            0 <= j < collected(fs, vs, n).len() ==> exists|i: int|
                0 <= i < n && (#[trigger] collected(fs, vs, n)[j]).0 == fs[i].api_key@,
    decreases n,
{
    if n > 0 {
        lemma_collected_keys(fs, vs, (n - 1) as nat);
        let prev = collected(fs, vs, (n - 1) as nat);
        let cur = collected(fs, vs, n);
        assert forall|j: int| 0 <= j < cur.len() implies exists|i: int|
            0 <= i < n && (#[trigger] cur[j]).0 == fs[i].api_key@ by {
            if j < prev.len() {
                assert(cur[j] == prev[j]);
                let i = choose|i: int| 0 <= i < n - 1 && (#[trigger] prev[j]).0 == fs[i].api_key@;
                assert(cur[j].0 == fs[i].api_key@);
            } else {
                assert(cur[j].0 == fs[n - 1].api_key@);
            }
        }
        assert forall|a: int, b: int| 0 <= a < b < cur.len() implies cur[a].0 != cur[b].0 by {
            if b < prev.len() {
                assert(cur[a] == prev[a] && cur[b] == prev[b]);
            } else {
                assert(cur[a] == prev[a]);
                let i = choose|i: int| 0 <= i < n - 1 && (#[trigger] prev[a]).0 == fs[i].api_key@;
                assert(cur[b].0 == fs[n - 1].api_key@);
            }
        }
    }
}

/// Every resource's filter table keys each filter by its own API key, so a
/// request holds each key at most once, whatever flags are given.
pub proof fn law_filter_requests_hold_each_key_once(vs: Seq<FlagValueV>)
    ensures
        distinct_keys(container_filter_table()),
        distinct_keys(image_filter_table()),
        distinct_keys(volume_filter_table()),
        distinct_keys(plugin_filter_table()),
        distinct_keys(search_filter_table()),
        vs.len() == container_filter_table().len() ==> distinct_entry_keys(
            collected(container_filter_table(), vs, container_filter_table().len()),
        ),
        vs.len() == image_filter_table().len() ==> distinct_entry_keys(
            collected(image_filter_table(), vs, image_filter_table().len()),
        ),
        vs.len() == volume_filter_table().len() ==> distinct_entry_keys(
            collected(volume_filter_table(), vs, volume_filter_table().len()),
        ),
        vs.len() == plugin_filter_table().len() ==> distinct_entry_keys(
            collected(plugin_filter_table(), vs, plugin_filter_table().len()),
        ),
        vs.len() == search_filter_table().len() ==> distinct_entry_keys(
            collected(search_filter_table(), vs, search_filter_table().len()),
        ),
{
    reveal_strlit("status");
    reveal_strlit("health");
    reveal_strlit("exited");
    reveal_strlit("ancestor");
    reveal_strlit("before");
    reveal_strlit("since");
    reveal_strlit("name");
    reveal_strlit("id");
    reveal_strlit("network");
    reveal_strlit("volume");
    reveal_strlit("publish");
    reveal_strlit("expose");
    reveal_strlit("label");
    reveal_strlit("is-task");
    reveal_strlit("reference");
    reveal_strlit("dangling");
    reveal_strlit("driver");
    reveal_strlit("capability");
    reveal_strlit("enabled");
    reveal_strlit("stars");
    reveal_strlit("is-official");
    let c = container_filter_table();
    assert forall|i: int, j: int| 0 <= i < j < c.len() implies c[i].api_key@ != c[j].api_key@ by {
        if c[i].api_key@ == c[j].api_key@ {
            assert(c[i].api_key@.len() == c[j].api_key@.len());
            assert(c[i].api_key@[0] == c[j].api_key@[0]);
            assert(c[i].api_key@[1] == c[j].api_key@[1]);
            assert(c[i].api_key@[2] == c[j].api_key@[2]);
        }
    }
    let im = image_filter_table();
    assert forall|i: int, j: int| 0 <= i < j < im.len() implies im[i].api_key@ != im[j].api_key@ by {
        if im[i].api_key@ == im[j].api_key@ {
            assert(im[i].api_key@.len() == im[j].api_key@.len());
            assert(im[i].api_key@[0] == im[j].api_key@[0]);
        }
    }
    let v = volume_filter_table();
    assert forall|i: int, j: int| 0 <= i < j < v.len() implies v[i].api_key@ != v[j].api_key@ by {
        if v[i].api_key@ == v[j].api_key@ {
            assert(v[i].api_key@.len() == v[j].api_key@.len());
            assert(v[i].api_key@[0] == v[j].api_key@[0]);
        }
    }
    let p = plugin_filter_table();
    assert(p[0].api_key@.len() != p[1].api_key@.len());
    let s = search_filter_table();
    assert(s[0].api_key@.len() != s[1].api_key@.len());
    if vs.len() == c.len() {
        lemma_collected_keys(c, vs, c.len());
    }
    if vs.len() == im.len() {
        lemma_collected_keys(im, vs, im.len());
    }
    if vs.len() == v.len() {
        lemma_collected_keys(v, vs, v.len());
    }
    if vs.len() == p.len() {
        lemma_collected_keys(p, vs, p.len());
    }
    if vs.len() == s.len() {
        lemma_collected_keys(s, vs, s.len());
    }
}

// ---------------------------------------------------------------------------
// `--labels` completion
// ---------------------------------------------------------------------------

/// `--labels` candidates never end the token: accepting one types no space,
/// so the user can go on with `=`, a value or a comma.
pub proof fn law_label_candidates_never_end_the_token(
    typed: Seq<char>,
    e: Seq<(Seq<char>, Seq<Seq<char>>)>,
)
    ensures
        forall|i: int|
            0 <= i < label_filter_spec(typed, e).len()
                ==> !(#[trigger] label_filter_spec(typed, e)[i]).append_whitespace,
{
}

/// `--labels` candidates keep the pairs already committed: each starts with
/// everything typed up to the last comma.
pub proof fn law_label_candidates_keep_committed_pairs(
    typed: Seq<char>,
    e: Seq<(Seq<char>, Seq<Seq<char>>)>,
)
    ensures
        forall|i: int|
            0 <= i < label_filter_spec(typed, e).len() ==> has_prefix(
                (#[trigger] label_filter_spec(typed, e)[i]).value,
                committed_part(typed),
            ),
{
    let c = committed_part(typed);
    last_index_in_range(typed, ',');
    assert(has_prefix(typed, c)) by {
        match last_index_of(typed, ',') {
            Some(i) => {
                assert(typed.subrange(0, c.len() as int) =~= c);
            },
            None => {
                assert(typed.subrange(0, 0) =~= c);
            },
        }
    }
    let r = label_filter_spec(typed, e);
    assert forall|i: int| 0 <= i < r.len() implies has_prefix(
        (#[trigger] r[i]).value,
        c,
    ) by {
        let v = r[i].value;
        assert(v.subrange(0, c.len() as int) =~= c) by {
            let l = last_part(typed);
            match first_index_of(l, '=') {
                Some(k) => {
                    let key = l.subrange(0, k);
                    let val = l.subrange(k + 1, l.len() as int);
                    match lookup(e, key) {
                        Some(vs) => {
                            if val.len() > 0 && vs.contains(val) {
                                assert(v == typed + ","@);
                                assert(forall|j: int| 0 <= j < c.len() ==> typed[j] == c[j]);
                            } else {
                                assert(v == c + key + "="@ + vs[i]);
                            }
                        },
                        None => {},
                    }
                },
                None => {
                    assert(v == c + e[i].0 + "="@);
                },
            }
        }
    }
}

proof fn lemma_lookup_absent(e: Seq<(Seq<char>, Seq<Seq<char>>)>, key: Seq<char>)
    requires
        forall|i: int| 0 <= i < e.len() ==> (#[trigger] e[i]).0 != key,
    ensures
        lookup(e, key) is None,
    decreases e.len(),
{
    if e.len() > 0 {
        assert(e[0].0 != key);
        assert forall|i: int| 0 <= i < e.len() - 1 implies (#[trigger] e.drop_first()[i]).0
            != key by {
            assert(e.drop_first()[i] == e[i + 1]);
        }
        lemma_lookup_absent(e.drop_first(), key);
    }
}

/// Typing `key=` for a key no object carries offers nothing.
pub proof fn law_unknown_key_offers_nothing(typed: Seq<char>, e: Seq<(Seq<char>, Seq<Seq<char>>)>)
    requires
        first_index_of(last_part(typed), '=') is Some,
        forall|i: int|
            0 <= i < e.len() ==> (#[trigger] e[i]).0 != last_part(typed).subrange(
                0,
                first_index_of(last_part(typed), '=')->0,
            ),
    ensures
        label_filter_spec(typed, e).len() == 0,
{
    let l = last_part(typed);
    let k = first_index_of(l, '=')->0;
    lemma_lookup_absent(e, l.subrange(0, k));
}

// ---------------------------------------------------------------------------
// Decorators and flat views
// ---------------------------------------------------------------------------

/// The column `--show-labels` adds.
pub open spec fn labels_cell(labels: Option<Seq<(Seq<char>, Seq<char>)>>) -> (Seq<char>, CellV) {
    ("labels"@, str_map_spec(labels))
}

/// `--show-labels` appends exactly one `labels` column, holding the object's
/// label map, and leaves every other column as it was: for containers, in
/// compact and wide.
pub proof fn law_show_labels_appends_a_column_to_containers(c: ContainerSummary, d: ContainerDetails)
    ensures
        container_compact_spec(c, true) == container_compact_spec(c, false).push(
            labels_cell(c.labels.deep_view()),
        ),
        container_wide_spec(d, true) == container_wide_spec(d, false).push(
            labels_cell(d.labels.deep_view()),
        ),
{
    assert(container_compact_spec(c, true) =~= container_compact_spec(c, false).push(
        labels_cell(c.labels.deep_view()),
    ));
    assert(container_wide_spec(d, true) =~= container_wide_spec(d, false).push(
        labels_cell(d.labels.deep_view()),
    ));
}

/// `--show-labels` appends exactly one `labels` column to each image row, in
/// compact (every `repo:tag` row) and wide.
pub proof fn law_show_labels_appends_a_column_to_images(img: ImageSummary, d: ImageDetails)
    ensures
        image_compact_spec(img, true).len() == image_compact_spec(img, false).len(),
        forall|i: int|
            0 <= i < image_compact_spec(img, true).len() ==> #[trigger] image_compact_spec(
                img,
                true,
            )[i] == image_compact_spec(img, false)[i].push(
                labels_cell(Some(img.labels.deep_view())),
            ),
        image_wide_spec(d, true) == image_wide_spec(d, false).push(
            labels_cell(d.labels.deep_view()),
        ),
{
    assert forall|i: int| 0 <= i < image_compact_spec(img, true).len() implies #[trigger] image_compact_spec(
        img,
        true,
    )[i] == image_compact_spec(img, false)[i].push(labels_cell(Some(img.labels.deep_view()))) by {
        let r = crate::commands::image::listed_refs(img.repo_tags.deep_view())[i];
        assert(image_ref_row(img, r, true) =~= image_ref_row(img, r, false).push(
            labels_cell(Some(img.labels.deep_view())),
        ));
    }
    assert(image_wide_spec(d, true) =~= image_wide_spec(d, false).push(
        labels_cell(d.labels.deep_view()),
    ));
}

/// `--show-labels` appends exactly one `labels` column to a volume's row, in
/// compact and wide.
pub proof fn law_show_labels_appends_a_column_to_volumes(v: Volume)
    ensures
        volume_compact_spec(v, true) == volume_compact_spec(v, false).push(
            labels_cell(Some(v.labels.deep_view())),
        ),
        volume_wide_spec(v, true) == volume_wide_spec(v, false).push(
            labels_cell(Some(v.labels.deep_view())),
        ),
{
    assert(volume_compact_spec(v, true) =~= volume_compact_spec(v, false).push(
        labels_cell(Some(v.labels.deep_view())),
    ));
    assert(volume_wide_spec(v, true) =~= volume_wide_spec(v, false).push(
        labels_cell(Some(v.labels.deep_view())),
    ));
}

/// For the flat views `diff`, `top`, `history` and `search`, compact and
/// wide are the same table.
pub proof fn law_flat_views_compact_is_wide(
    changes: Option<Vec<FilesystemChange>>,
    titles: Option<Seq<Seq<char>>>,
    processes: Option<Seq<Seq<Seq<char>>>>,
    history: Seq<HistoryItem>,
    hits: Seq<SearchHit>,
)
    ensures
        history_spec(history, OutputFormat::Compact) == history_spec(history, OutputFormat::Wide),
        diff_spec(changes, OutputFormat::Compact) == diff_spec(changes, OutputFormat::Wide),
        top_spec(titles, processes, OutputFormat::Compact) == top_spec(
            titles,
            processes,
            OutputFormat::Wide,
        ),
        hits_spec(hits, OutputFormat::Compact) == hits_spec(hits, OutputFormat::Wide),
{
}

// ---------------------------------------------------------------------------
// The status line
// ---------------------------------------------------------------------------

/// The exit code Docker prints in a stopped (`Exited (N) …`) or restarting
/// (`Restarting (N) …`) status line is read back as `N`, whatever follows the
/// closing parenthesis.
pub proof fn law_exit_code_reads_back(n: nat, tail: Seq<char>)
    requires
        n <= i64::MAX,
    ensures
        status_exit_code_spec(Some("Exited ("@ + nat_decimal(n) + ")"@ + tail)) == Some(n as i64),
        status_exit_code_spec(Some("Restarting ("@ + nat_decimal(n) + ")"@ + tail)) == Some(
            n as i64,
        ),
{
    reveal_strlit("Exited (");
    reveal_strlit("Restarting (");
    reveal_strlit(")");
    let after = nat_decimal(n) + (")"@ + tail);
    assert(!is_digit((")"@ + tail)[0]));
    lemma_decimal_reads_back(n, ")"@ + tail);
    let e = "Exited ("@ + nat_decimal(n) + ")"@ + tail;
    assert(e =~= "Exited ("@ + after);
    assert(e.subrange(0, 8) =~= "Exited ("@);
    assert(e.subrange(8, e.len() as int) =~= after);
    let r = "Restarting ("@ + nat_decimal(n) + ")"@ + tail;
    assert(r =~= "Restarting ("@ + after);
    assert(r[0] != "Exited ("@[0]);
    assert(r.subrange(0, 12) =~= "Restarting ("@);
    assert(r.subrange(12, r.len() as int) =~= after);
}

// ---------------------------------------------------------------------------
// Image references
// ---------------------------------------------------------------------------

/// The number of compact rows a list of images makes: one per `repo:tag`,
/// and one for an untagged image.
pub open spec fn image_row_count(images: Seq<ImageSummary>) -> nat
    decreases images.len(),
{
    if images.len() == 0 {
        0
    } else {
        let tags = images.last().repo_tags@.len();
        image_row_count(images.drop_last()) + if tags == 0 {
            1
        } else {
            tags
        }
    }
}

/// `image ls` in compact shows one row per `repo:tag`, and a single row for
/// an untagged image, for each image listed.
pub proof fn law_image_list_has_a_row_per_tag(images: Seq<ImageSummary>, show: bool)
    ensures
        image_list_plan_spec(images, OutputFormat::Compact, show) matches ListPlanV::Rows(rows)
            && rows.len() == image_row_count(images),
    decreases images.len(),
{
    let f = |i: ImageSummary| image_compact_spec(i, show);
    if images.len() == 0 {
        assert(images.map_values(f) =~= Seq::<Seq<RowV>>::empty());
        assert(images.flat_map(f) =~= Seq::<RowV>::empty());
    } else {
        let init = images.drop_last();
        let last = images.last();
        law_image_list_has_a_row_per_tag(init, show);
        assert(images =~= init.push(last));
        init.lemma_flat_map_push(f, last);
        assert(last.repo_tags.deep_view().len() == last.repo_tags@.len());
    }
}

/// Image reference candidates never offer the untagged `<none>:<none>`
/// placeholder, and each is a tag of a listed image.
pub proof fn law_image_refs_skip_the_placeholder(images: Seq<ImageSummary>, c: SuggestionV)
    requires
        images.flat_map(|i: ImageSummary| offered_refs(i)).contains(c),
    ensures
        c.value != "<none>:<none>"@,
        exists|k: int| 0 <= k < images.len() && #[trigger] images[k].repo_tags.deep_view().contains(c.value),
    decreases images.len(),
{
    let f = |i: ImageSummary| offered_refs(i);
    let init = images.drop_last();
    let last = images.last();
    assert(images =~= init.push(last));
    init.lemma_flat_map_push(f, last);
    if init.flat_map(f).contains(c) {
        law_image_refs_skip_the_placeholder(init, c);
        let k = choose|k: int| 0 <= k < init.len() && #[trigger] init[k].repo_tags.deep_view().contains(c.value);
        assert(images[k] == init[k]);
    } else {
        let tags = last.repo_tags.deep_view();
        let g = |t: Seq<char>| tag_candidate(t);
        assert(offered_refs(last).contains(c));
        tags.lemma_filter_map_contains(g, c);
        let t = choose|t: Seq<char>| #[trigger] tags.contains(t) && g(t) == Some(c);
        assert(images[images.len() - 1] == last);
    }
}

// ---------------------------------------------------------------------------
// The `--labels` cycle
// ---------------------------------------------------------------------------

/// `s` has no `c` in it.
pub open spec fn free_of(s: Seq<char>, c: char) -> bool {
    forall|j: int| 0 <= j < s.len() ==> s[j] != c
}

/// Committed pairs: nothing, or text ending in the separating comma.
pub open spec fn committed(c: Seq<char>) -> bool {
    c.len() == 0 || c.last() == ','
}

proof fn lemma_parts(c: Seq<char>, l: Seq<char>)
    requires
        committed(c),
        free_of(l, ','),
    ensures
        committed_part(c + l) == c,
        last_part(c + l) == l,
{
    let t = c + l;
    assert forall|j: int| c.len() - 1 < j < t.len() implies t[j] != ',' by {
        if j >= c.len() {
            assert(t[j] == l[j - c.len()]);
        }
    }
    lemma_last_index_of(t, ',', c.len() - 1);
    assert(t.subrange(0, c.len() as int) =~= c);
    assert(t.subrange(c.len() as int, t.len() as int) =~= l);
    if c.len() == 0 {
        assert(t =~= l);
    }
}

proof fn lemma_key_at(k: Seq<char>, rest: Seq<char>)
    requires
        free_of(k, '='),
    ensures
        first_index_of(k + "="@ + rest, '=') == Some(k.len() as int),
        (k + "="@ + rest).subrange(0, k.len() as int) == k,
        (k + "="@ + rest).subrange(k.len() as int + 1, (k + "="@ + rest).len() as int) == rest,
{
    reveal_strlit("=");
    let l = k + "="@ + rest;
    assert(l[k.len() as int] == '=');
    assert forall|j: int| 0 <= j < k.len() implies l[j] != '=' by {
        assert(l[j] == k[j]);
    }
    lemma_first_index_of(l, '=', k.len() as int);
    assert(l.subrange(0, k.len() as int) =~= k);
    assert(l.subrange(k.len() as int + 1, l.len() as int) =~= rest);
}

/// `--labels` completion cycles `key=` → the key's values → a comma → the
/// keys again: after committed pairs `c` and a known key `k`, typing `k=`
/// offers each of the key's values; typing one of them in full offers the
/// separating comma; and after that comma, every key is offered with all of
/// it kept in front.
pub proof fn law_label_completion_cycles(
    e: Seq<(Seq<char>, Seq<Seq<char>>)>,
    c: Seq<char>,
    k: Seq<char>,
    v: Seq<char>,
)
    requires
        committed(c),
        free_of(k, ','),
        free_of(k, '='),
        free_of(v, ','),
        v.len() > 0,
        lookup(e, k) matches Some(vs) && vs.contains(v),
    ensures
        label_filter_spec(c + k + "="@, e) == lookup(e, k)->0.map_values(
            |w: Seq<char>| crate::completers::pair_v(c + k + "="@ + w),
        ),
        label_filter_spec(c + k + "="@ + v, e) == seq![
            crate::completers::pair_v(c + k + "="@ + v + ","@),
        ],
        label_filter_spec(c + k + "="@ + v + ","@, e) == e.map_values(
            |en: (Seq<char>, Seq<Seq<char>>)|
                crate::completers::pair_v(c + k + "="@ + v + ","@ + en.0 + "="@),
        ),
{
    reveal_strlit("=");
    reveal_strlit(",");
    let vs = lookup(e, k)->0;
    // `k=`
    let l1 = k + "="@;
    assert(free_of(l1, ',')) by {
        assert forall|j: int| 0 <= j < l1.len() implies l1[j] != ',' by {
            if j < k.len() {
                assert(l1[j] == k[j]);
            }
        }
    }
    lemma_parts(c, l1);
    assert(c + k + "="@ =~= c + l1);
    lemma_key_at(k, Seq::empty());
    assert(k + "="@ + Seq::<char>::empty() =~= l1);
    // `k=v`
    let l2 = k + "="@ + v;
    assert(free_of(l2, ',')) by {
        assert forall|j: int| 0 <= j < l2.len() implies l2[j] != ',' by {
            if j < k.len() {
                assert(l2[j] == k[j]);
            } else if j > k.len() {
                assert(l2[j] == v[j - k.len() - 1]);
            }
        }
    }
    lemma_parts(c, l2);
    assert(c + k + "="@ + v =~= c + l2);
    lemma_key_at(k, v);
    // `k=v,`
    let t3 = c + k + "="@ + v + ","@;
    assert(committed(t3));
    lemma_parts(t3, Seq::empty());
    assert(t3 + Seq::<char>::empty() =~= t3);
    assert(first_index_of(Seq::<char>::empty(), '=') is None);
}

// ---------------------------------------------------------------------------
// What each row reports
// ---------------------------------------------------------------------------

/// A container's compact `exit_code` is read off its status line, never off
/// its state: it is the code `status_exit_code_spec` reads from the status,
/// so a container whose status reads `Exited (N) …` or `Restarting (N) …`
/// shows `N`, whatever its state says.
pub proof fn law_compact_exit_code_comes_from_the_status(
    c: ContainerSummary,
    show: bool,
    n: nat,
    tail: Seq<char>,
)
    ensures
        container_compact_spec(c, show)[4] == (
            "exit_code"@,
            CellV::One(crate::helpers::opt_int_spec(status_exit_code_spec(c.status.deep_view()))),
        ),
        n <= i64::MAX && (c.status.deep_view() == Some("Exited ("@ + nat_decimal(n) + ")"@ + tail)
            || c.status.deep_view() == Some("Restarting ("@ + nat_decimal(n) + ")"@ + tail))
            ==> container_compact_spec(c, show)[4] == ("exit_code"@, CellV::One(ScalarV::Int(n as int))),
{
    if n <= i64::MAX {
        law_exit_code_reads_back(n, tail);
    }
}

/// The number of port records a list of `port/proto` entries makes: one per
/// host binding, and one for an entry with none.
pub open spec fn port_record_count(
    entries: Seq<(Seq<char>, Option<Seq<(Option<Seq<char>>, Option<Seq<char>>)>>)>,
) -> nat
    decreases entries.len(),
{
    if entries.len() == 0 {
        0
    } else {
        let more = match entries.last().1 {
            Some(bs) => if bs.len() > 0 {
                bs.len()
            } else {
                1
            },
            None => 1,
        };
        port_record_count(entries.drop_last()) + more
    }
}

/// Every host binding of a port is its own record: for a `port/proto` entry
/// with bindings `bs`, the entry makes exactly `bs.len()` records, the `k`-th
/// carrying the port, the protocol and `bs[k]`'s host IP and host port; the
/// whole ports table has one record per binding, and one per port without.
pub proof fn law_every_port_binding_is_a_record(
    key: Seq<char>,
    bs: Seq<(Option<Seq<char>>, Option<Seq<char>>)>,
    entries: Seq<(Seq<char>, Option<Seq<(Option<Seq<char>>, Option<Seq<char>>)>>)>,
)
    ensures
        bs.len() > 0 ==> {
            let rows = crate::commands::container::entry_rows(key, Some(bs));
            let (port, proto) = crate::commands::container::port_key_spec(key);
            &&& rows.len() == bs.len()
            &&& forall|k: int|
                0 <= k < bs.len() ==> #[trigger] rows[k] == seq![
                    ("container_port"@, crate::commands::container::port_int_spec(port)),
                    ("proto"@, ScalarV::Str(proto)),
                    ("host_ip"@, crate::helpers::str_opt_spec(bs[k].0)),
                    ("host_port"@, crate::commands::container::host_port_spec(bs[k].1)),
                ]
        },
        crate::commands::container::ports_rows(entries).len() == port_record_count(entries),
    decreases entries.len(),
{
    if entries.len() > 0 {
        law_every_port_binding_is_a_record(key, bs, entries.drop_last());
    }
}

/// The wide image row shows the same short id as the compact rows: the id
/// without its `sha256:` prefix, cut to twelve characters; an id written
/// `sha256:` followed by a digest shows the digest's first twelve characters.
pub proof fn law_wide_image_id_drops_the_algorithm(
    d: ImageDetails,
    img: ImageSummary,
    r: Seq<char>,
    show: bool,
    digest: Seq<char>,
)
    ensures
        d.id.deep_view() == Some(img.id@) ==> image_wide_spec(d, show)[0].1
            == image_ref_row(img, r, show)[2].1,
        d.id.deep_view() == Some(seq!['s', 'h', 'a', '2', '5', '6', ':'] + digest) ==> image_wide_spec(
            d,
            show,
        )[0] == (
            "id"@,
            CellV::One(crate::helpers::str_opt_spec(Some(take_at_most(digest, 12)))),
        ),
{
    let id = seq!['s', 'h', 'a', '2', '5', '6', ':'] + digest;
    assert(id.subrange(0, 7) =~= crate::commands::image::sha256_prefix());
    assert(id.subrange(7, id.len() as int) =~= digest);
}

/// `diff` names each change by its kind: a modified path is `modified`, an
/// added one `added`, a deleted one `deleted`.
pub proof fn law_diff_names_the_change_kind(c: FilesystemChange)
    ensures
        crate::commands::detail::diff_row_spec(c)[0] == ("path"@, CellV::One(
            crate::helpers::str_opt_spec(Some(c.path@)),
        )),
        c.kind == crate::commands::detail::ChangeKind::Modified ==> crate::commands::detail::diff_row_spec(
            c,
        )[1] == ("kind"@, CellV::One(ScalarV::Str("modified"@))),
        c.kind == crate::commands::detail::ChangeKind::Added ==> crate::commands::detail::diff_row_spec(
            c,
        )[1] == ("kind"@, CellV::One(ScalarV::Str("added"@))),
        c.kind == crate::commands::detail::ChangeKind::Deleted ==> crate::commands::detail::diff_row_spec(
            c,
        )[1] == ("kind"@, CellV::One(ScalarV::Str("deleted"@))),
{
}

/// `image ls -o wide` and `-o full` inspect every listed image, in order,
/// by its id; only compact builds rows from the list itself.
pub proof fn law_image_wide_and_full_inspect_every_image(images: Seq<ImageSummary>, show: bool)
    ensures
        forall|f: OutputFormat|
            f != OutputFormat::Compact ==> #[trigger] image_list_plan_spec(images, f, show)
                == ListPlanV::Inspect(images.map_values(|i: ImageSummary| i.id@)),
        image_list_plan_spec(images, OutputFormat::Wide, show) == ListPlanV::Inspect(
            Seq::new(images.len(), |k: int| images[k].id@),
        ),
        image_list_plan_spec(images, OutputFormat::Compact, show) is Rows,
{
    assert(images.map_values(|i: ImageSummary| i.id@) =~= Seq::new(
        images.len(),
        |k: int| images[k].id@,
    ));
}

/// `container ls -o wide` and `-o full` inspect every listed container that
/// has an id, in order; only compact builds rows from the list itself, one
/// per container.
pub proof fn law_container_wide_and_full_inspect_every_container(
    cs: Seq<ContainerSummary>,
    show: bool,
)
    ensures
        forall|f: OutputFormat|
            f != OutputFormat::Compact ==> #[trigger] crate::commands::container::list_plan_spec(
                cs,
                f,
                show,
            ) == ListPlanV::Inspect(
                cs.filter_map(|c: ContainerSummary| c.id.deep_view()),
            ),
        (crate::commands::container::list_plan_spec(cs, OutputFormat::Compact, show) matches ListPlanV::Rows(
            rows,
        ) && rows.len() == cs.len()),
{
    let f1 = |c: ContainerSummary| crate::commands::container::summary_id(c);
    let f2 = |c: ContainerSummary| c.id.deep_view();
    assert(f1 =~= f2);
}

// ---------------------------------------------------------------------------
// Each format shows the rows of that format
// ---------------------------------------------------------------------------

/// Volumes: compact shows each volume's compact row, wide its wide row, in
/// listing order, and full the raw records.
pub proof fn law_volume_formats(vs: Seq<Volume>, show: bool)
    ensures
        crate::commands::volume::volumes_spec(vs, OutputFormat::Compact, show) == crate::value::RenderingV::Rows(
            vs.map_values(|v: Volume| volume_compact_spec(v, show)),
        ),
        crate::commands::volume::volumes_spec(vs, OutputFormat::Wide, show) == crate::value::RenderingV::Rows(
            vs.map_values(|v: Volume| volume_wide_spec(v, show)),
        ),
        crate::commands::volume::volumes_spec(vs, OutputFormat::Full, show) is Raw,
{
    assert(vs.map_values(|v: Volume| crate::commands::volume::volume_row_spec(v, OutputFormat::Compact, show))
        =~= vs.map_values(|v: Volume| volume_compact_spec(v, show)));
    assert(vs.map_values(|v: Volume| crate::commands::volume::volume_row_spec(v, OutputFormat::Wide, show))
        =~= vs.map_values(|v: Volume| volume_wide_spec(v, show)));
}

/// Plugins: compact shows each plugin's headline row, wide its wide row, in
/// listing order, and full the raw records.
pub proof fn law_plugin_formats(ps: Seq<Plugin>)
    ensures
        crate::commands::plugin::plugins_spec(ps, OutputFormat::Compact) == crate::value::RenderingV::Rows(
            ps.map_values(|p: Plugin| plugin_head_spec(p)),
        ),
        crate::commands::plugin::plugins_spec(ps, OutputFormat::Wide) == crate::value::RenderingV::Rows(
            ps.map_values(|p: Plugin| crate::commands::plugin::plugin_wide_spec(p)),
        ),
        crate::commands::plugin::plugins_spec(ps, OutputFormat::Full) is Raw,
{
    assert(ps.map_values(|p: Plugin| crate::commands::plugin::plugin_row_spec(p, OutputFormat::Compact))
        =~= ps.map_values(|p: Plugin| plugin_head_spec(p)));
    assert(ps.map_values(|p: Plugin| crate::commands::plugin::plugin_row_spec(p, OutputFormat::Wide))
        =~= ps.map_values(|p: Plugin| crate::commands::plugin::plugin_wide_spec(p)));
}

/// Inspected containers and images show their wide rows in compact and wide
/// alike, one per payload in order, and the raw payloads in full.
pub proof fn law_inspected_objects_show_wide_rows(
    cs: Seq<ContainerDetails>,
    is: Seq<ImageDetails>,
    show: bool,
)
    ensures
        crate::commands::container::inspected_spec(cs, OutputFormat::Wide, show) == crate::value::RenderingV::Rows(
            cs.map_values(|c: ContainerDetails| container_wide_spec(c, show)),
        ),
        crate::commands::container::inspected_spec(cs, OutputFormat::Compact, show)
            == crate::commands::container::inspected_spec(cs, OutputFormat::Wide, show),
        crate::commands::container::inspected_spec(cs, OutputFormat::Full, show) is Raw,
        crate::commands::image::inspected_spec(is, OutputFormat::Wide, show) == crate::value::RenderingV::Rows(
            is.map_values(|d: ImageDetails| image_wide_spec(d, show)),
        ),
        crate::commands::image::inspected_spec(is, OutputFormat::Compact, show)
            == crate::commands::image::inspected_spec(is, OutputFormat::Wide, show),
        crate::commands::image::inspected_spec(is, OutputFormat::Full, show) is Raw,
{
}

/// `system info` shows its headline record in compact; wide keeps that
/// record's columns, in order, and appends the rest; full is raw.
pub proof fn law_info_wide_extends_compact(i: SystemInfo)
    ensures
        crate::commands::system::info_spec(i, OutputFormat::Compact) == crate::value::RenderingV::Rows(
            seq![info_record_spec(i, false)],
        ),
        crate::commands::system::info_spec(i, OutputFormat::Wide) == crate::value::RenderingV::Rows(
            seq![info_record_spec(i, true)],
        ),
        crate::commands::system::info_spec(i, OutputFormat::Full) is Raw,
        info_record_spec(i, true).len() > info_record_spec(i, false).len(),
        info_record_spec(i, true).take(info_record_spec(i, false).len() as int) == info_record_spec(
            i,
            false,
        ),
{
    assert(info_record_spec(i, true).take(info_record_spec(i, false).len() as int)
        =~= info_record_spec(i, false));
}

/// `system version` shows its summary in compact and the summary with the
/// minimum API version and components in wide; full is raw. Every compact
/// column is in the wide record.
pub proof fn law_version_wide_extends_compact(v: SystemVersion)
    ensures
        crate::commands::system::version_spec(v, OutputFormat::Compact) == crate::value::RenderingV::Rows(
            seq![version_record_spec(v, false)],
        ),
        crate::commands::system::version_spec(v, OutputFormat::Wide) == crate::value::RenderingV::Rows(
            seq![version_record_spec(v, true)],
        ),
        crate::commands::system::version_spec(v, OutputFormat::Full) is Raw,
        forall|k: int|
            0 <= k < version_record_spec(v, false).len() ==> version_record_spec(v, true).contains(
                #[trigger] version_record_spec(v, false)[k],
            ),
{
    let c = version_record_spec(v, false);
    let w = version_record_spec(v, true);
    assert forall|k: int| 0 <= k < c.len() implies w.contains(#[trigger] c[k]) by {
        if k < 2 {
            assert(w[k] == c[k]);
        } else {
            assert(w[k + 1] == c[k]);
        }
    }
}

// ---------------------------------------------------------------------------
// What the columns hold
// ---------------------------------------------------------------------------

/// A container's compact row: the name is its first name without the
/// leading `/`, the health is read off the status line, and the creation
/// time is its epoch date.
pub proof fn law_container_compact_columns(c: ContainerSummary, show: bool, first: Seq<char>)
    ensures
        c.names.deep_view() matches Some(ns) && ns.len() > 0 && ns[0] == first ==> container_compact_spec(
            c,
            show,
        )[0] == ("name"@, CellV::One(crate::helpers::str_opt_spec(Some(drop_leading(first, '/'))))),
        container_compact_spec(c, show)[3] == (
            "health"@,
            CellV::One(crate::helpers::str_opt_spec(
                crate::commands::container::status_health_spec(c.status.deep_view()),
            )),
        ),
        container_compact_spec(c, show)[5] == ("created"@, CellV::One(
            crate::helpers::opt_epoch_spec(c.created),
        )),
{
}

/// A container's wide row: the exit code only of a container that is not
/// running; the name without its leading `/`; the id cut to twelve
/// characters; one network name per attached network, in order; one record
/// per mount, in order.
pub proof fn law_container_wide_columns(r: ContainerDetails, show: bool)
    ensures
        r.running == Some(true) ==> container_wide_spec(r, show)[5] == ("exit_code"@, CellV::One(
            ScalarV::Nothing,
        )),
        r.running != Some(true) ==> container_wide_spec(r, show)[5] == ("exit_code"@, CellV::One(
            crate::helpers::opt_int_spec(r.exit_code),
        )),
        r.name.deep_view() matches Some(n) ==> container_wide_spec(r, show)[0] == ("name"@, CellV::One(
            crate::helpers::str_opt_spec(Some(drop_leading(n, '/'))),
        )),
        r.id.deep_view() matches Some(i) ==> container_wide_spec(r, show)[1] == ("id"@, CellV::One(
            crate::helpers::str_opt_spec(Some(take_at_most(i, 12))),
        )),
        r.networks.deep_view() matches Some(ns) ==> container_wide_spec(r, show)[13].1 matches CellV::List(
            names,
        ) && names.len() == ns.len() && forall|k: int|
            0 <= k < ns.len() ==> #[trigger] names[k] == ScalarV::Str(ns[k].0),
        r.mounts.deep_view() matches Some(ms) ==> container_wide_spec(r, show)[14].1 matches CellV::Table(
            recs,
        ) && recs.len() == ms.len() && forall|k: int|
            0 <= k < ms.len() ==> (#[trigger] recs[k])[1] == ("source"@, crate::helpers::str_opt_spec(
                ms[k].source,
            )) && recs[k][2] == ("destination"@, crate::helpers::str_opt_spec(ms[k].destination)),
{
}

/// A network with no address, or an empty one.
pub open spec fn no_address(a: Option<Seq<char>>) -> bool {
    match a {
        Some(x) => x.len() == 0,
        None => true,
    }
}

/// The container's IP is the first non-empty address among its networks:
/// when the `k`-th network has address `ip` and none before it has one, the
/// `ip` cell is `ip`.
pub proof fn law_container_ip_is_the_first_address(
    nets: Seq<(Seq<char>, Option<Seq<char>>)>,
    k: int,
    ip: Seq<char>,
)
    requires
        0 <= k < nets.len(),
        nets[k].1 == Some(ip),
        ip.len() > 0,
        forall|j: int| 0 <= j < k ==> no_address(#[trigger] nets[j].1),
    ensures
        crate::commands::container::ip_spec(Some(nets)) == ScalarV::Str(ip),
    decreases k,
{
    if k > 0 {
        let rest = nets.drop_first();
        assert forall|j: int| 0 <= j < k - 1 implies no_address(#[trigger] rest[j].1) by {
            assert(rest[j] == nets[j + 1]);
        }
        law_container_ip_is_the_first_address(rest, k - 1, ip);
        assert(no_address(nets[0].1));
    }
}

/// An image's compact row under a reference: repository and tag split at the
/// reference's last colon, the id without `sha256:` cut to twelve
/// characters, the creation epoch as a date, the size as a file size.
pub proof fn law_image_compact_columns(img: ImageSummary, r: Seq<char>, show: bool)
    ensures
        image_ref_row(img, r, show)[0] == ("repository"@, CellV::One(
            crate::helpers::str_opt_spec(split_ref_spec(r).0),
        )),
        image_ref_row(img, r, show)[1] == ("tag"@, CellV::One(
            crate::helpers::str_opt_spec(split_ref_spec(r).1),
        )),
        image_ref_row(img, r, show)[3] == ("created"@, CellV::One(
            crate::helpers::epoch_date_spec(img.created),
        )),
        image_ref_row(img, r, show)[4] == ("size"@, CellV::One(ScalarV::Filesize(img.size as int))),
        forall|k: int|
            0 <= k < image_compact_spec(img, show).len() ==> #[trigger] image_compact_spec(img, show)[k]
                == image_ref_row(
                img,
                if img.repo_tags@.len() == 0 {
                    "<none>:<none>"@
                } else {
                    img.repo_tags@[k]@
                },
                show,
            ),
{
}

/// A volume's wide row reports usage only when the daemon computed it: size
/// and reference count from it, nothing otherwise.
pub proof fn law_volume_usage(v: Volume, show: bool)
    ensures
        v.usage matches Some((size, refs)) ==> volume_wide_spec(v, show)[6] == ("size"@, CellV::One(
            ScalarV::Filesize(size as int),
        )) && volume_wide_spec(v, show)[7] == ("refs"@, CellV::One(ScalarV::Int(refs as int))),
        v.usage is None ==> volume_wide_spec(v, show)[6] == ("size"@, CellV::One(ScalarV::Nothing))
            && volume_wide_spec(v, show)[7] == ("refs"@, CellV::One(ScalarV::Nothing)),
{
}

/// A search hit's row keeps the star count as an integer and the official
/// flag as a boolean.
pub proof fn law_search_row_is_typed(h: SearchHit)
    ensures
        h.star_count matches Some(n) ==> crate::commands::search::search_row_spec(h)[2] == (
            "stars"@,
            CellV::One(ScalarV::Int(n as int)),
        ),
        h.is_official matches Some(b) ==> crate::commands::search::search_row_spec(h)[3] == (
            "official"@,
            CellV::One(ScalarV::Bool(b)),
        ),
{
}

/// `top` makes one row per process, in order; each row has one column per
/// title, named by the lowercased title, holding the process's entry at that
/// position, or nothing when the process line is shorter.
pub proof fn law_top_has_a_row_per_process(
    titles: Seq<Seq<char>>,
    processes: Seq<Seq<Seq<char>>>,
)
    ensures
        crate::commands::detail::top_table_spec(Some(titles), Some(processes)).len()
            == processes.len(),
        forall|p: int|
            0 <= p < processes.len() ==> (#[trigger] crate::commands::detail::top_table_spec(
                Some(titles),
                Some(processes),
            )[p]).len() == titles.len(),
        forall|p: int, k: int|
            #![trigger crate::commands::detail::top_table_spec(Some(titles), Some(processes))[p][k]]
            0 <= p < processes.len() && 0 <= k < titles.len() ==> crate::commands::detail::top_table_spec(
                Some(titles),
                Some(processes),
            )[p][k] == (
                crate::text::lowercase(titles[k]),
                CellV::One(
                    crate::helpers::str_opt_spec(
                        if k < processes[p].len() {
                            Some(processes[p][k])
                        } else {
                            None
                        },
                    ),
                ),
            ),
{
}

// ---------------------------------------------------------------------------
// Filter values
// ---------------------------------------------------------------------------

/// An integer printed for a filter parses back as the same integer.
pub proof fn law_printed_integers_parse_back(n: i64)
    ensures
        crate::text::parse_i64_spec(crate::text::int_decimal(n as int)) == Some(n),
{
    if n >= 0 {
        lemma_decimal_reads_back(n as nat, Seq::empty());
        assert(nat_decimal(n as nat) + Seq::<char>::empty() =~= nat_decimal(n as nat));
    } else {
        let m = (-n) as nat;
        crate::text::lemma_nat_decimal(m);
        let d = nat_decimal(m);
        let s = seq!['-'] + d;
        assert(s.drop_first() =~= d);
        assert(s[0] == '-');
    }
}

/// What a filter sends for the value it was given: a string filter the
/// string, an integer filter the integer in decimal (which parses back as
/// it), a set switch `true`, a labels filter its comma-separated parts (and
/// nothing when there are none); an absent flag, or a value of the wrong
/// kind, sends nothing. Every entry is keyed by the filter's API key.
pub proof fn law_filter_entries_carry_the_given_value(f: FilterArg, v: FlagValueV)
    ensures
        v is Absent ==> filter_entry(f, v) is None,
        f.shape == crate::scaffold::Shape::Str ==> (v matches FlagValueV::Text(t) ==> filter_entry(
            f,
            v,
        ) == Some((f.api_key@, seq![t]))),
        f.shape == crate::scaffold::Shape::Switch && v is Present ==> filter_entry(f, v) == Some(
            (f.api_key@, seq!["true"@]),
        ),
        f.shape == crate::scaffold::Shape::Switch && !(v is Present) ==> filter_entry(f, v) is None,
        f.shape == crate::scaffold::Shape::Int ==> (v matches FlagValueV::Number(n) ==> (filter_entry(
            f,
            v,
        ) matches Some(e) && e.0 == f.api_key@ && e.1.len() == 1 && crate::text::parse_i64_spec(
            e.1[0],
        ) == Some(n))),
        f.shape == crate::scaffold::Shape::Labels ==> (v matches FlagValueV::Text(t) ==> filter_entry(
            f,
            v,
        ) == if csv_parts(t).len() > 0 {
            Some((f.api_key@, csv_parts(t)))
        } else {
            None
        }),
{
    if let FlagValueV::Number(n) = v {
        law_printed_integers_parse_back(n);
    }
}

// ---------------------------------------------------------------------------
// Field helpers
// ---------------------------------------------------------------------------

/// Docker's empty strings and absent fields are nothing, any other string is
/// itself; a string list is always a list with one string per item; a string
/// map is a record with one string field per entry, in order; an optional
/// integer, flag or byte count is its value, or nothing.
pub proof fn law_fields_keep_their_values(
    s: Seq<char>,
    items: Seq<Seq<char>>,
    map: Seq<(Seq<char>, Seq<char>)>,
    n: i64,
    b: bool,
)
    ensures
        crate::helpers::str_opt_spec(Some(s)) == if s.len() > 0 {
            ScalarV::Str(s)
        } else {
            ScalarV::Nothing
        },
        crate::helpers::str_opt_spec(None) == ScalarV::Nothing,
        crate::helpers::str_list_spec(None) == CellV::List(Seq::empty()),
        crate::helpers::str_list_spec(Some(items)) matches CellV::List(l) && l.len() == items.len()
            && forall|k: int| 0 <= k < items.len() ==> #[trigger] l[k] == ScalarV::Str(items[k]),
        crate::helpers::str_map_spec(Some(map)) matches CellV::Record(r) && r.len() == map.len()
            && forall|k: int| 0 <= k < map.len() ==> #[trigger] r[k] == (map[k].0, ScalarV::Str(map[k].1)),
        crate::helpers::opt_int_spec(Some(n)) == ScalarV::Int(n as int),
        crate::helpers::opt_int_spec(None) == ScalarV::Nothing,
        crate::helpers::opt_bool_spec(Some(b)) == ScalarV::Bool(b),
        crate::helpers::opt_filesize_spec(Some(n)) == ScalarV::Filesize(n as int),
        crate::helpers::opt_filesize_spec(None) == ScalarV::Nothing,
{
}

} // verus!
