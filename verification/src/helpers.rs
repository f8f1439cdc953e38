//! Typed field → cell helpers.
//!
//! Docker quantities are mapped to precise cell types:
//! - Unix epoch / RFC 3339 timestamp → a date cell
//! - byte counts                     → a file-size cell
//! - absent (`None`) / empty         → nothing

use vstd::prelude::*;

use crate::text::{
    char_count, chars_of, lemma_csv_pieces_at_most, lemma_split_count, csv_parts, csv_piece, drop_leading, has_prefix, lemma_filter_map_push,
    lemma_split_nonempty, owned, slice, split_seq, starts_with, take_at_most, take_chars, trim,
    trim_start_char,
};
use crate::value::{Cell, CellV, DateStamp, Field, Scalar, ScalarV};

verus! {

// ---------------------------------------------------------------------------
// Dates
// ---------------------------------------------------------------------------

/// Whether chrono can represent the instant `secs` seconds after the epoch:
/// its day must fall within chrono's calendar, from `-262143-01-01` to
/// `262142-12-31`, that is from `-8334601228800` (the first second of its
/// first day) to `8210266876799` (the last second of its last day).
pub open spec fn utc_timestamp_valid(secs: i64) -> bool {
    -8334601228800 <= secs <= 8210266876799
}

/// What chrono's `DateTime::parse_from_rfc3339` makes of a string: the
/// instant and offset written there, or `None` when the text is not RFC 3339.
pub uninterp spec fn rfc3339_stamp(s: Seq<char>) -> Option<DateStamp>;

/// Calls chrono's `TimeZone::timestamp_opt` on `Utc` with no nanoseconds.
/// Claimed: a result exactly when `secs` lies in chrono's range
/// (`utc_timestamp_valid`: `DateTime::from_timestamp` takes the day
/// `secs.div_euclid(86400)` from the epoch and accepts it when its year lies
/// within `NaiveDate`'s bounds), and then the same instant at UTC (chrono
/// documents that `timestamp()` gives `secs` back).
#[verifier::external_body]
fn utc_timestamp(secs: i64) -> (r: Option<DateStamp>)
    ensures
        r is Some <==> utc_timestamp_valid(secs),
        r matches Some(d) ==> d == (DateStamp { secs: secs, nanos: 0, offset_secs: 0 }),
{
    match chrono::TimeZone::timestamp_opt(&chrono::Utc, secs, 0) {
        chrono::LocalResult::Single(dt) => Some(DateStamp {
            secs: dt.timestamp(),
            nanos: dt.timestamp_subsec_nanos(),
            offset_secs: 0,
        }),
        chrono::LocalResult::Ambiguous(_, _) => None,
        chrono::LocalResult::None => None,
    }
}

/// Calls chrono's `DateTime::parse_from_rfc3339`. Claimed: the result is a
/// function of the text alone, named `rfc3339_stamp`; what that function is
/// (the RFC 3339 grammar and its arithmetic) is not stated.
#[verifier::external_body]
fn parse_rfc3339(s: &str) -> (r: Option<DateStamp>)
    ensures
        r == rfc3339_stamp(s@),
{
    match chrono::DateTime::parse_from_rfc3339(s) {
        Ok(dt) => Some(DateStamp {
            secs: dt.timestamp(),
            nanos: dt.timestamp_subsec_nanos(),
            offset_secs: dt.offset().local_minus_utc(),
        }),
        Err(_) => None,
    }
}

pub open spec fn date_scalar_spec(d: Option<DateStamp>) -> ScalarV {
    match d {
        Some(d) => ScalarV::Date(d),
        None => ScalarV::Nothing,
    }
}

/// A parsed instant → a date cell, nothing when there is none.
pub fn date_scalar(d: Option<DateStamp>) -> (r: Scalar)
    ensures
        r.deep_view() == date_scalar_spec(d),
{
    match d {
        Some(d) => Scalar::Date(d),
        None => Scalar::Nothing,
    }
}

pub open spec fn epoch_date_spec(secs: i64) -> ScalarV {
    if utc_timestamp_valid(secs) {
        ScalarV::Date(DateStamp { secs: secs, nanos: 0, offset_secs: 0 })
    } else {
        ScalarV::Nothing
    }
}

/// Unix epoch seconds → a date cell (nothing if out of range).
pub fn epoch_date(secs: i64) -> (r: Scalar)
    ensures
        r.deep_view() == epoch_date_spec(secs),
{
    date_scalar(utc_timestamp(secs))
}

pub open spec fn opt_epoch_spec(secs: Option<i64>) -> ScalarV {
    match secs {
        Some(s) => epoch_date_spec(s),
        None => ScalarV::Nothing,
    }
}

/// `Option<i64>` epoch seconds → a date cell or nothing.
pub fn opt_epoch(secs: Option<i64>) -> (r: Scalar)
    ensures
        r.deep_view() == opt_epoch_spec(secs),
{
    match secs {
        Some(s) => epoch_date(s),
        None => Scalar::Nothing,
    }
}

/// RFC 3339 timestamp → a date cell (nothing when it does not parse).
pub fn rfc3339_date(s: &str) -> (r: Scalar)
    ensures
        r.deep_view() == date_scalar_spec(rfc3339_stamp(s@)),
{
    date_scalar(parse_rfc3339(s))
}

/// Docker's "zero" timestamp, used for never-started/finished.
pub open spec fn zero_time_prefix() -> Seq<char> {
    seq!['0', '0', '0', '1', '-', '0', '1', '-', '0', '1']
}

pub open spec fn opt_rfc3339_spec(s: Option<Seq<char>>) -> ScalarV {
    match s {
        Some(t) => if t.len() > 0 && !has_prefix(t, zero_time_prefix()) {
            date_scalar_spec(rfc3339_stamp(t))
        } else {
            ScalarV::Nothing
        },
        None => ScalarV::Nothing,
    }
}

/// `Option<&str>` RFC 3339 → a date cell. Docker's "zero" timestamp
/// (`0001-01-01T00:00:00Z`, used for never-started/finished) maps to nothing.
pub fn opt_rfc3339(s: Option<&str>) -> (r: Scalar)
    ensures
        r.deep_view() == opt_rfc3339_spec(s.deep_view()),
{
    match s {
        Some(t) => {
            let zero = "0001-01-01";
            proof {
                reveal_strlit("0001-01-01");
                assert(zero@ =~= zero_time_prefix());
            }
            if t.unicode_len() > 0 && !starts_with(t, zero) {
                rfc3339_date(t)
            } else {
                Scalar::Nothing
            }
        },
        None => Scalar::Nothing,
    }
}

// ---------------------------------------------------------------------------
// Strings / numbers / lists / maps
// ---------------------------------------------------------------------------

/// A borrowed view of an optional owned string (`Option::as_deref`).
pub fn as_deref(s: &Option<String>) -> (r: Option<&str>)
    ensures
        r.deep_view() == s.deep_view(),
{
    match s {
        Some(t) => Some(t.as_str()),
        None => None,
    }
}

pub open spec fn str_opt_spec(s: Option<Seq<char>>) -> ScalarV {
    match s {
        Some(t) => if t.len() > 0 {
            ScalarV::Str(t)
        } else {
            ScalarV::Nothing
        },
        None => ScalarV::Nothing,
    }
}

/// `Option<&str>` → a string cell (nothing when absent or empty).
///
/// Docker uses the empty string for absent scalar fields, so `Some("")` maps to
/// nothing.
pub fn str_opt(s: Option<&str>) -> (r: Scalar)
    ensures
        r.deep_view() == str_opt_spec(s.deep_view()),
{
    match s {
        Some(t) => if t.unicode_len() > 0 {
            Scalar::Str(owned(t))
        } else {
            Scalar::Nothing
        },
        None => Scalar::Nothing,
    }
}

/// An enum field, given by the name it serializes to: a string cell, nothing
/// when absent or when the name is empty (e.g. an unset scope).
pub fn enum_opt(name: Option<&str>) -> (r: Scalar)
    ensures
        r.deep_view() == str_opt_spec(name.deep_view()),
{
    str_opt(name)
}

pub open spec fn opt_int_spec(n: Option<i64>) -> ScalarV {
    match n {
        Some(n) => ScalarV::Int(n as int),
        None => ScalarV::Nothing,
    }
}

/// `Option<i64>` → an int cell or nothing.
pub fn opt_int(n: Option<i64>) -> (r: Scalar)
    ensures
        r.deep_view() == opt_int_spec(n),
{
    match n {
        Some(n) => Scalar::Int(n),
        None => Scalar::Nothing,
    }
}

pub open spec fn opt_bool_spec(b: Option<bool>) -> ScalarV {
    match b {
        Some(b) => ScalarV::Bool(b),
        None => ScalarV::Nothing,
    }
}

/// `Option<bool>` → a bool cell or nothing.
pub fn opt_bool(b: Option<bool>) -> (r: Scalar)
    ensures
        r.deep_view() == opt_bool_spec(b),
{
    match b {
        Some(b) => Scalar::Bool(b),
        None => Scalar::Nothing,
    }
}

pub open spec fn opt_filesize_spec(n: Option<i64>) -> ScalarV {
    match n {
        Some(n) => ScalarV::Filesize(n as int),
        None => ScalarV::Nothing,
    }
}

/// `Option<i64>` byte count → a file-size cell or nothing.
pub fn opt_filesize(bytes: Option<i64>) -> (r: Scalar)
    ensures
        r.deep_view() == opt_filesize_spec(bytes),
{
    match bytes {
        Some(n) => Scalar::Filesize(n),
        None => Scalar::Nothing,
    }
}

pub open spec fn str_list_spec(items: Option<Seq<Seq<char>>>) -> CellV {
    match items {
        Some(v) => CellV::List(v.map_values(|s: Seq<char>| ScalarV::Str(s))),
        None => CellV::List(Seq::empty()),
    }
}

/// `Option<Vec<String>>` → a list of strings, always a list (empty when
/// absent) so a list column is never nothing.
pub fn str_list(items: Option<&Vec<String>>) -> (r: Cell)
    ensures
        r.deep_view() == str_list_spec(items.deep_view()),
{
    let mut out: Vec<Scalar> = Vec::new();
    match items {
        Some(v) => {
            let mut i: usize = 0;
            while i < v.len()
                invariant
                    i <= v@.len(),
                    out.deep_view() =~= v.deep_view().take(i as int).map_values(
                        |s: Seq<char>| ScalarV::Str(s),
                    ),
                decreases v@.len() - i,
            {
                let ghost before = out.deep_view();
                let item = v[i].clone();
                out.push(Scalar::Str(item));
                assert(out.deep_view() =~= before.push(ScalarV::Str(v[i as int]@)));
                assert(v.deep_view().take(i + 1) =~= v.deep_view().take(i as int).push(v[i as int]@));
                assert(v.deep_view().take(i + 1).map_values(|s: Seq<char>| ScalarV::Str(s))
                    =~= v.deep_view().take(i as int).map_values(|s: Seq<char>| ScalarV::Str(s)).push(
                    ScalarV::Str(v[i as int]@),
                ));
                i = i + 1;
            }
            assert(v.deep_view().take(i as int) =~= v.deep_view());
        },
        None => {
            assert(out.deep_view() =~= Seq::<ScalarV>::empty());
        },
    }
    Cell::List(out)
}

pub open spec fn str_map_spec(map: Option<Seq<(Seq<char>, Seq<char>)>>) -> CellV {
    match map {
        Some(m) => CellV::Record(
            m.map_values(|p: (Seq<char>, Seq<char>)| (p.0, ScalarV::Str(p.1))),
        ),
        None => CellV::Record(Seq::empty()),
    }
}

/// A string→string map (its entries in the order given) → a record of strings
/// (empty record when absent). Backs labels, volume `options`, and any other
/// Docker string map.
pub fn str_map(map: Option<&Vec<(String, String)>>) -> (r: Cell)
    ensures
        r.deep_view() == str_map_spec(map.deep_view()),
{
    let mut out: Vec<Field> = Vec::new();
    match map {
        Some(m) => {
            let mut i: usize = 0;
            while i < m.len()
                invariant
                    i <= m@.len(),
                    out.deep_view() =~= m.deep_view().take(i as int).map_values(
                        |p: (Seq<char>, Seq<char>)| (p.0, ScalarV::Str(p.1)),
                    ),
                decreases m@.len() - i,
            {
                let ghost before = out.deep_view();
                let k = m[i].0.clone();
                let v = m[i].1.clone();
                out.push((k, Scalar::Str(v)));
                let ghost e = m[i as int].deep_view();
                assert(out.deep_view() =~= before.push((e.0, ScalarV::Str(e.1))));
                assert(m.deep_view().take(i + 1) =~= m.deep_view().take(i as int).push(e));
                assert(m.deep_view().take(i + 1).map_values(
                    |p: (Seq<char>, Seq<char>)| (p.0, ScalarV::Str(p.1)),
                ) =~= m.deep_view().take(i as int).map_values(
                    |p: (Seq<char>, Seq<char>)| (p.0, ScalarV::Str(p.1)),
                ).push((e.0, ScalarV::Str(e.1))));
                i = i + 1;
            }
            assert(m.deep_view().take(i as int) =~= m.deep_view());
        },
        None => {
            assert(out.deep_view() =~= Seq::<(Seq<char>, ScalarV)>::empty());
        },
    }
    Cell::Record(out)
}

// ---------------------------------------------------------------------------
// Names and ids
// ---------------------------------------------------------------------------

pub open spec fn clean_name_spec(names: Option<Seq<Seq<char>>>) -> Option<Seq<char>> {
    match names {
        Some(v) => if v.len() > 0 {
            Some(drop_leading(v[0], '/'))
        } else {
            None
        },
        None => None,
    }
}

/// The first of Docker's container names, stripped of its leading `/`.
pub fn clean_name(names: Option<&Vec<String>>) -> (r: Option<String>)
    ensures
        r.deep_view() == clean_name_spec(names.deep_view()),
{
    match names {
        Some(v) => if v.len() > 0 {
            Some(owned(trim_start_char(v[0].as_str(), '/')))
        } else {
            None
        },
        None => None,
    }
}

/// The first 12 characters of an id — Docker's short form. Callers strip any
/// registry prefix (e.g. `sha256:`) beforehand.
pub fn short_id(id: &str) -> (r: String)
    ensures
        r@ == take_at_most(id@, 12),
{
    owned(take_chars(id, 12))
}

/// Split a comma-separated flag value (`a=b,c=d`) into trimmed, non-empty
/// parts, in order; there are at most one more parts than commas. Turns the
/// `--labels` string into Docker's `label` filter list.
pub fn split_csv(s: &str) -> (parts: Vec<String>)
    ensures
        parts.deep_view() == csv_parts(s@),
        parts@.len() <= char_count(s@, ',') + 1,
{
    let v = chars_of(s);
    let n = v.len();
    let mut parts: Vec<String> = Vec::new();
    let mut start: usize = 0;
    let mut i: usize = 0;
    proof {
        lemma_split_nonempty(s@.take(0), ',');
        assert(s@.take(0) =~= Seq::<char>::empty());
    }
    while i < n
        invariant
            v@ == s@,
            n == v@.len(),
            start <= i <= n,
            split_seq(s@.take(i as int), ',').len() >= 1,
            split_seq(s@.take(i as int), ',').last() == s@.subrange(start as int, i as int),
            parts.deep_view() == split_seq(s@.take(i as int), ',').drop_last().filter_map(
                csv_piece(),
            ),
        decreases n - i,
    {
        let ghost prev = split_seq(s@.take(i as int), ',');
        assert(s@.take(i + 1).drop_last() =~= s@.take(i as int));
        assert(s@.take(i + 1).last() == s@[i as int]);
        if v[i] == ',' {
            let piece = trim(slice(s, start, i));
            proof {
                assert(split_seq(s@.take(i + 1), ',') == prev.push(Seq::empty()));
                assert(prev.push(Seq::<char>::empty()).drop_last() =~= prev);
                lemma_filter_map_push(prev.drop_last(), prev.last());
                assert(prev.drop_last().push(prev.last()) =~= prev);
            }
            if piece.unicode_len() > 0 {
                let ghost before = parts.deep_view();
                parts.push(owned(piece));
                assert(parts.deep_view() =~= before.push(piece@));
            }
            start = i + 1;
            proof {
                assert(s@.subrange(start as int, i + 1) =~= Seq::<char>::empty());
            }
        } else {
            proof {
                let next = prev.update(prev.len() - 1, prev.last().push(s@[i as int]));
                assert(split_seq(s@.take(i + 1), ',') == next);
                assert(next.drop_last() =~= prev.drop_last());
                assert(next.last() =~= s@.subrange(start as int, i + 1));
            }
        }
        i = i + 1;
    }
    let piece = trim(slice(s, start, n));
    let ghost all = split_seq(s@.take(n as int), ',');
    proof {
        assert(s@.take(n as int) =~= s@);
        lemma_filter_map_push(all.drop_last(), all.last());
        assert(all.drop_last().push(all.last()) =~= all);
    }
    if piece.unicode_len() > 0 {
        let ghost before = parts.deep_view();
        parts.push(owned(piece));
        assert(parts.deep_view() =~= before.push(piece@));
    }
    proof {
        lemma_split_count(s@, ',');
        lemma_csv_pieces_at_most(split_seq(s@, ','));
        assert(parts@.len() == parts.deep_view().len());
    }
    parts
}


} // verus!
