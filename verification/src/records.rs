//! The data a render call consumes: one match record per identification
//! hit, and the verbosity mode that selects the column set.

use vstd::prelude::*;

verus! {

/// How much detail the rendered table shows.
///
/// `Normal` prints three columns (matched text, pattern name,
/// description); `Verbose` adds the rarity and tag columns.
#[derive(Clone, Copy)]
pub enum PrintMode {
    Normal,
    Verbose,
}

/// Metadata describing the pattern a piece of text was identified as.
pub struct PatternData {
    /// Display name of the matched pattern.
    pub name: String,
    /// Optional human-readable explanation.
    pub description: Option<String>,
    /// Optional reference URL associated with the pattern; it is used as
    /// a prefix template, with the matched text appended directly.
    pub url: Option<String>,
    /// Rarity indicator, kept as its display text.
    pub rarity: String,
    /// Ordered category labels; possibly empty.
    pub tags: Vec<String>,
}

/// One identification result: the matched text and its pattern metadata.
pub struct Matches {
    /// The matched substring.
    pub text: String,
    /// The descriptor of the pattern it was identified as.
    pub data: PatternData,
}

/// The text of an optional string field.
pub open spec fn opt_text(o: Option<String>) -> Option<Seq<char>> {
    match o {
        Some(s) => Some(s@),
        None => None,
    }
}

/// The texts of a sequence of strings.
pub open spec fn texts_of(v: Seq<String>) -> Seq<Seq<char>> {
    v.map_values(|s: String| s@)
}

} // verus!
