//! The rendering entry point: a colored found/not-found status line and,
//! when results exist, the assembled table, returned as one output text.

use vstd::prelude::*;
use crate::records::Matches;
use crate::records::PrintMode;
use crate::records::texts_of;
use crate::rows::build_headers;
use crate::rows::build_row;
use crate::rows::header_texts;
use crate::rows::row_texts;
use crate::table_ext::cell_bold;
use crate::table_ext::cell_magenta;
use crate::table_ext::cell_new;
use crate::table_ext::cell_text;
use crate::table_ext::cell_texts;
use crate::table_ext::table_add_row;
use crate::table_ext::table_display;
use crate::table_ext::table_header;
use crate::table_ext::table_load_utf8_style;
use crate::table_ext::table_new;
use crate::table_ext::table_rows;
use crate::table_ext::table_set_dynamic_arrangement;
use crate::table_ext::table_set_header;

verus! {

/// The status banner for a render call: the positive literal in green
/// when results were found, the negative one in red otherwise, each
/// wrapped in the ANSI color escape and a reset.
pub open spec fn status_text(found: bool) -> Seq<char> {
    if found {
        "\x1b[0;32mFound Possible Identifications :)\x1b[0m"@
    } else {
        "\x1b[0;31mNo Possible Identifications :(\x1b[0m"@
    }
}

/// Builds the status banner line (without its trailing newline).
pub fn status_line(found: bool) -> (r: String)
    ensures
        r@ == status_text(found),
{
    if found {
        String::from_str("\x1b[0;32mFound Possible Identifications :)\x1b[0m")
    } else {
        String::from_str("\x1b[0;31mNo Possible Identifications :(\x1b[0m")
    }
}

/// Turns display strings into emphasized header cells: bold, in the
/// accent color. Styling never changes a cell's text.
fn styled_cells(texts: &Vec<String>) -> (r: Vec<comfy_table::Cell>)
    ensures
        cell_texts(r@) == texts_of(texts@),
{
    let mut r: Vec<comfy_table::Cell> = Vec::new();
    let mut i: usize = 0;
    while i < texts.len()
        invariant
            i <= texts@.len(),
            r@.len() == i,
            forall|j: int| 0 <= j < i ==> cell_text(r@[j]) == texts@[j]@,
        decreases texts@.len() - i,
    {
        r.push(cell_magenta(cell_bold(cell_new(texts[i].as_str()))));
        i += 1;
    }
    proof {
        assert(cell_texts(r@) =~= texts_of(texts@));
    }
    r
}

/// Turns display strings into plain, unstyled body cells.
fn plain_cells(texts: &Vec<String>) -> (r: Vec<comfy_table::Cell>)
    ensures
        cell_texts(r@) == texts_of(texts@),
{
    let mut r: Vec<comfy_table::Cell> = Vec::new();
    let mut i: usize = 0;
    while i < texts.len()
        invariant
            i <= texts@.len(),
            r@.len() == i,
            forall|j: int| 0 <= j < i ==> cell_text(r@[j]) == texts@[j]@,
        decreases texts@.len() - i,
    {
        r.push(cell_new(texts[i].as_str()));
        i += 1;
    }
    proof {
        assert(cell_texts(r@) =~= texts_of(texts@));
    }
    r
}

/// Assembles the drawing crate's table: the UTF-8 border style, dynamic
/// column widths, the emphasized header for the mode, and one body row
/// per record, in input order.
pub fn build_table(results: &[Matches], mode: PrintMode) -> (t: comfy_table::Table)
    ensures
        table_header(t) == header_texts(mode),
        table_rows(t).len() == results@.len(),
        forall|i: int| 0 <= i < results@.len() ==> table_rows(t)[i] == row_texts(results@[i], mode),
{
    let mut t = table_new();
    table_load_utf8_style(&mut t);
    table_set_dynamic_arrangement(&mut t);
    let headers = build_headers(mode);
    table_set_header(&mut t, styled_cells(&headers));
    let mut i: usize = 0;
    while i < results.len()
        invariant
            i <= results@.len(),
            table_header(t) == header_texts(mode),
            table_rows(t).len() == i,
            forall|j: int| 0 <= j < i ==> table_rows(t)[j] == row_texts(results@[j], mode),
        decreases results@.len() - i,
    {
        let row = build_row(&results[i], mode);
        table_add_row(&mut t, plain_cells(&row));
        i += 1;
    }
    t
}

/// Renders the full output text for a result sequence and a mode.
///
/// An empty sequence yields exactly the negative status line and nothing
/// else: no table is built. A non-empty sequence yields the positive
/// status line followed by the drawn table, whose header and rows are
/// pinned down by [`build_table`]; each line ends in a newline.
pub fn render(results: &[Matches], mode: PrintMode) -> (r: String)
    ensures
        results@.len() == 0 ==> r@ == status_text(false) + "\n"@,
        results@.len() > 0 ==> (status_text(true) + "\n"@).is_prefix_of(r@),
        results@.len() > 0 ==> (exists|table_text: Seq<char>|
            r@ == status_text(true) + "\n"@ + table_text + "\n"@),
{
    if results.len() == 0 {
        let mut r = status_line(false);
        r.append("\n");
        r
    } else {
        let mut r = status_line(true);
        r.append("\n");
        let t = build_table(results, mode);
        let body = table_display(&t);
        r.append(body.as_str());
        r.append("\n");
        proof {
            let banner = status_text(true) + "\n"@;
            assert(r@.subrange(0, banner.len() as int) =~= banner);
            assert(r@ =~= banner + body@ + "\n"@);
        }
        r
    }
}

} // verus!
