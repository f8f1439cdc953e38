//! Optional enrichment columns toggled by `--show-*` flags.
//!
//! Every resource command shares this so the flag surface stays uniform: read
//! the flags once into [`Decorators`], then let each formatter hand its own
//! label map to [`Decorators::apply_labels`]. Labels are Docker's only
//! enrichment axis today.

use vstd::prelude::*;

use crate::helpers::{str_map, str_map_spec};
use crate::value::{put, Row, RowV};

verus! {

/// Which enrichment columns the caller asked for.
#[derive(Debug, Clone, Copy)]
pub struct Decorators {
    show_labels: bool,
}

/// The columns the labels decorator appends: a `labels` record when asked
/// for, nothing otherwise.
pub open spec fn labels_column(show: bool, labels: Option<Seq<(Seq<char>, Seq<char>)>>) -> RowV {
    if show {
        seq![("labels"@, str_map_spec(labels))]
    } else {
        Seq::empty()
    }
}

impl Default for Decorators {
    /// No enrichment column.
    fn default() -> (d: Self)
        ensures
            !d.shows_labels(),
    {
        Decorators { show_labels: false }
    }
}

impl Decorators {
    /// Whether the `labels` column was asked for.
    pub closed spec fn shows_labels(&self) -> bool {
        self.show_labels
    }

    /// The decorators for a call whose `--show-labels` flag is `show_labels`.
    pub fn new(show_labels: bool) -> (d: Self)
        ensures
            d.shows_labels() == show_labels,
    {
        Decorators { show_labels }
    }

    /// Append a `labels` column built from `labels` when `--show-labels` is
    /// set; a no-op otherwise, so formatters can call it unconditionally.
    pub fn apply_labels(&self, rec: &mut Row, labels: Option<&Vec<(String, String)>>)
        ensures
            final(rec).deep_view() == old(rec).deep_view() + labels_column(
                self.shows_labels(),
                labels.deep_view(),
            ),
    {
        let ghost before = rec.deep_view();
        if self.show_labels {
            put(rec, "labels", str_map(labels));
            assert(rec.deep_view() =~= before + labels_column(true, labels.deep_view()));
        } else {
            assert(rec.deep_view() =~= before + labels_column(false, labels.deep_view()));
        }
    }
}

} // verus!
