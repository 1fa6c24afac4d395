//! The boundary to `comfy_table`, the external table-drawing crate: its
//! `Table` and `Cell` types are declared opaque, their displayed contents
//! are named, and each method the renderer calls gets a thin trusted
//! wrapper whose contract states what that call does to those contents.
//! Everything else about the table (border glyphs, column widths,
//! styling) is the drawing crate's own business and is not modeled.

use vstd::prelude::*;

verus! {

#[verifier::external_type_specification]
#[verifier::external_body]
pub struct ExTable(comfy_table::Table);

#[verifier::external_type_specification]
#[verifier::external_body]
pub struct ExCell(comfy_table::Cell);

/// The text a table cell displays.
pub uninterp spec fn cell_text(c: comfy_table::Cell) -> Seq<char>;

/// The texts of a table's header cells, in order.
pub uninterp spec fn table_header(t: comfy_table::Table) -> Seq<Seq<char>>;

/// The cell texts of a table's body rows, in order.
pub uninterp spec fn table_rows(t: comfy_table::Table) -> Seq<Seq<Seq<char>>>;

/// The texts of a sequence of cells.
pub open spec fn cell_texts(cells: Seq<comfy_table::Cell>) -> Seq<Seq<char>> {
    cells.map_values(|c: comfy_table::Cell| cell_text(c))
}

/// Relies on `comfy_table::Cell::new`: the cell stores exactly the given
/// text (split on newlines for storage and rejoined for display).
#[verifier::external_body]
pub(crate) fn cell_new(s: &str) -> (c: comfy_table::Cell)
    ensures
        cell_text(c) == s@,
{
    comfy_table::Cell::new(s)
}

/// Relies on `comfy_table::Cell::add_attribute`: a text attribute (here
/// bold) changes styling only, never the cell's content.
#[verifier::external_body]
pub(crate) fn cell_bold(c: comfy_table::Cell) -> (r: comfy_table::Cell)
    ensures
        cell_text(r) == cell_text(c),
{
    c.add_attribute(comfy_table::Attribute::Bold)
}

/// Relies on `comfy_table::Cell::fg`: the foreground color (here the
/// accent color magenta) changes styling only, never the cell's content.
#[verifier::external_body]
pub(crate) fn cell_magenta(c: comfy_table::Cell) -> (r: comfy_table::Cell)
    ensures
        cell_text(r) == cell_text(c),
{
    c.fg(comfy_table::Color::Magenta)
}

/// Relies on `comfy_table::Table::new`: a fresh table has no header and
/// no rows.
#[verifier::external_body]
pub(crate) fn table_new() -> (t: comfy_table::Table)
    ensures
        table_header(t) == Seq::<Seq<char>>::empty(),
        table_rows(t) == Seq::<Seq<Seq<char>>>::empty(),
{
    comfy_table::Table::new()
}

/// Relies on `comfy_table::Table::load_style`: loading the UTF-8
/// box-drawing border style replaces the style field only; the header and
/// rows are untouched.
#[verifier::external_body]
pub(crate) fn table_load_utf8_style(t: &mut comfy_table::Table)
    ensures
        table_header(*final(t)) == table_header(*old(t)),
        table_rows(*final(t)) == table_rows(*old(t)),
{
    t.load_style(comfy_table::presets::UTF8_FULL);
}

/// Relies on `comfy_table::Table::set_content_arrangement`: the dynamic
/// arrangement negotiates column widths at draw time and sets a field
/// only; the header and rows are untouched.
#[verifier::external_body]
pub(crate) fn table_set_dynamic_arrangement(t: &mut comfy_table::Table)
    ensures
        table_header(*final(t)) == table_header(*old(t)),
        table_rows(*final(t)) == table_rows(*old(t)),
{
    t.set_content_arrangement(comfy_table::ContentArrangement::Dynamic);
}

/// Relies on `comfy_table::Table::set_header`: the header becomes exactly
/// the given cells, in order; the rows are untouched.
#[verifier::external_body]
pub(crate) fn table_set_header(t: &mut comfy_table::Table, cells: Vec<comfy_table::Cell>)
    ensures
        table_header(*final(t)) == cell_texts(cells@),
        table_rows(*final(t)) == table_rows(*old(t)),
{
    t.set_header(cells);
}

/// Relies on `comfy_table::Table::add_row`: one row holding exactly the
/// given cells, in order, is appended after the existing rows; the header
/// is untouched.
#[verifier::external_body]
pub(crate) fn table_add_row(t: &mut comfy_table::Table, cells: Vec<comfy_table::Cell>)
    ensures
        table_rows(*final(t)) == table_rows(*old(t)).push(cell_texts(cells@)),
        table_header(*final(t)) == table_header(*old(t)),
{
    t.add_row(cells);
}

/// Relies on `comfy_table`'s `Display` impl for `Table`: it draws the
/// header and rows with borders and negotiated column widths. The exact
/// text depends on the terminal the process runs under, so nothing is
/// stated of it.
#[verifier::external_body]
pub(crate) fn table_display(t: &comfy_table::Table) -> String {
    format!("{t}")
}

} // verus!
