//! The three output densities every command takes through `--output`/`-o`.

use vstd::prelude::*;

use crate::text::str_eq;

verus! {

/// How much of an object a command shows.
#[derive(Debug, Clone, Copy, PartialEq, Eq, Structural)]
pub enum OutputFormat {
    /// Flat rows of primitive cells only.
    Compact,
    /// Richer rows that keep nested lists and records.
    Wide,
    /// The raw daemon payload, converted verbatim.
    Full,
}

/// The format an `--output` value names, if any.
pub open spec fn format_named(s: Seq<char>) -> Option<OutputFormat> {
    if s == "compact"@ {
        Some(OutputFormat::Compact)
    } else if s == "wide"@ {
        Some(OutputFormat::Wide)
    } else if s == "full"@ {
        Some(OutputFormat::Full)
    } else {
        None
    }
}

/// The format a command uses: the one `--output` names, else `wide` for a
/// named lookup and `compact` for a list.
pub open spec fn resolved_format(flag: Option<Seq<char>>, name_present: bool) -> OutputFormat {
    match flag {
        Some(s) if format_named(s) is Some => format_named(s)->0,
        _ => if name_present {
            OutputFormat::Wide
        } else {
            OutputFormat::Compact
        },
    }
}

/// Every format's name with a one-line description.
pub open spec fn format_table() -> Seq<(&'static str, &'static str)> {
    seq![
        ("compact", "Minimal columns from the list endpoint"),
        ("wide", "Rich columns from the inspect endpoint"),
        ("full", "The raw inspect payload, converted verbatim"),
    ]
}

impl OutputFormat {
    /// Every format's name with a one-line description, for completion.
    pub fn all() -> (v: Vec<(&'static str, &'static str)>)
        ensures
            v@ == format_table(),
    {
        let v = vec![
            ("compact", "Minimal columns from the list endpoint"),
            ("wide", "Rich columns from the inspect endpoint"),
            ("full", "The raw inspect payload, converted verbatim"),
        ];
        assert(v@ =~= format_table());
        v
    }

    /// The format named `s` (`compact`, `wide` or `full`), or `None`.
    pub fn parse(s: &str) -> (r: Option<OutputFormat>)
        ensures
            r == format_named(s@),
    {
        if str_eq(s, "compact") {
            Some(OutputFormat::Compact)
        } else if str_eq(s, "wide") {
            Some(OutputFormat::Wide)
        } else if str_eq(s, "full") {
            Some(OutputFormat::Full)
        } else {
            None
        }
    }
}

impl Default for OutputFormat {
    /// `compact`, the density of a list.
    fn default() -> (f: Self)
        ensures
            f == OutputFormat::Compact,
    {
        OutputFormat::Compact
    }
}

impl std::str::FromStr for OutputFormat {
    type Err = ();

    /// The format named `s`; `Err(())` for any other text.
    fn from_str(s: &str) -> (r: Result<Self, Self::Err>)
        ensures
            r == match format_named(s@) {
                Some(f) => Ok::<OutputFormat, ()>(f),
                None => Err::<OutputFormat, ()>(()),
            },
    {
        match OutputFormat::parse(s) {
            Some(f) => Ok(f),
            None => Err(()),
        }
    }
}

/// Resolve `--output`, defaulting to `wide` for a named lookup and `compact`
/// for a list. An unrecognized value falls back to the same default.
pub fn output_format(flag: Option<&str>, name_present: bool) -> (f: OutputFormat)
    ensures
        f == resolved_format(flag.deep_view(), name_present),
{
    let parsed = match flag {
        Some(s) => OutputFormat::parse(s),
        None => None,
    };
    match parsed {
        Some(f) => f,
        None => if name_present {
            OutputFormat::Wide
        } else {
            OutputFormat::Compact
        },
    }
}

} // verus!
