//! Builds the table's header cells and one row per match record, as
//! plain ordered lists of display strings.

use vstd::prelude::*;
use crate::describe::compose_description;
use crate::describe::composed_description;
use crate::describe::join_tags;
use crate::describe::joined_tags;
use crate::records::Matches;
use crate::records::PrintMode;
use crate::records::opt_text;
use crate::records::texts_of;

verus! {

/// The header cell texts for a mode: three fixed labels, with rarity and
/// tags added in `Verbose` mode. They never depend on record content.
pub open spec fn header_texts(mode: PrintMode) -> Seq<Seq<char>> {
    match mode {
        PrintMode::Normal => seq!["Matched text"@, "Identified as"@, "Description"@],
        PrintMode::Verbose => seq![
            "Matched text"@,
            "Identified as"@,
            "Description"@,
            "Rarity"@,
            "Tags"@,
        ],
    }
}

/// The cell texts of the row one record yields: matched text, pattern
/// name and composed description, plus rarity and joined tags in
/// `Verbose` mode.
pub open spec fn row_texts(m: Matches, mode: PrintMode) -> Seq<Seq<char>> {
    let description = composed_description(
        opt_text(m.data.description),
        opt_text(m.data.url),
        m.text@,
    );
    match mode {
        PrintMode::Normal => seq![m.text@, m.data.name@, description],
        PrintMode::Verbose => seq![
            m.text@,
            m.data.name@,
            description,
            m.data.rarity@,
            joined_tags(texts_of(m.data.tags@)),
        ],
    }
}

/// Normal mode yields exactly three header cells and Verbose exactly
/// five, whatever the records hold: the header depends on the mode alone.
pub proof fn lemma_header_count(mode: PrintMode)
    ensures
        mode is Normal ==> header_texts(mode).len() == 3,
        mode is Verbose ==> header_texts(mode).len() == 5,
{
}

/// Every row has exactly as many cells as the header built for the same
/// mode, so no table this crate assembles is ragged.
pub proof fn lemma_row_width_matches_header(m: Matches, mode: PrintMode)
    ensures
        row_texts(m, mode).len() == header_texts(mode).len(),
{
}

/// Builds the ordered header cells for a mode.
pub fn build_headers(mode: PrintMode) -> (r: Vec<String>)
    ensures
        texts_of(r@) == header_texts(mode),
{
    let mut r: Vec<String> = Vec::new();
    r.push(String::from_str("Matched text"));
    r.push(String::from_str("Identified as"));
    r.push(String::from_str("Description"));
    if let PrintMode::Verbose = mode {
        r.push(String::from_str("Rarity"));
        r.push(String::from_str("Tags"));
    }
    proof {
        assert(texts_of(r@) =~= header_texts(mode));
    }
    r
}

/// Builds the ordered cells of the row for one record.
pub fn build_row(m: &Matches, mode: PrintMode) -> (r: Vec<String>)
    ensures
        texts_of(r@) == row_texts(*m, mode),
{
    let mut r: Vec<String> = Vec::new();
    r.push(m.text.clone());
    r.push(m.data.name.clone());
    r.push(compose_description(&m.data.description, &m.data.url, m.text.as_str()));
    if let PrintMode::Verbose = mode {
        r.push(m.data.rarity.clone());
        r.push(join_tags(&m.data.tags));
    }
    proof {
        assert(texts_of(r@) =~= row_texts(*m, mode));
    }
    r
}

/// Builds one row per record, in input order: no record is dropped,
/// merged or reordered.
pub fn build_rows(results: &[Matches], mode: PrintMode) -> (r: Vec<Vec<String>>)
    ensures
        r@.len() == results@.len(),
        forall|i: int|
            0 <= i < results@.len() ==> texts_of(r@[i]@) == row_texts(results@[i], mode),
{
    let mut r: Vec<Vec<String>> = Vec::new();
    let mut i: usize = 0;
    while i < results.len()
        invariant
            i <= results@.len(),
            r@.len() == i,
            forall|j: int| 0 <= j < i ==> texts_of(r@[j]@) == row_texts(results@[j], mode),
        decreases results@.len() - i,
    {
        let row = build_row(&results[i], mode);
        r.push(row);
        i += 1;
    }
    r
}

} // verus!
