//! Renders identification results as a human-readable terminal table.
//!
//! A caller hands an ordered sequence of match records and a verbosity
//! mode to [`render::render`], which produces the full output text: a
//! colored found/not-found status line and, when results exist, a table
//! with one row per record. The table layout itself (borders, column
//! widths) is drawn by the `comfy_table` crate; everything this crate
//! states about the table's header and rows is proved against narrow
//! contracts over that crate's calls.

pub mod describe;
pub mod records;
pub mod render;
pub mod rows;
pub mod table_ext;
