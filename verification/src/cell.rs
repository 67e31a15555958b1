//! The cells of a result and the text that each is shown as.

use vstd::prelude::*;
use vstd::string::*;
use crate::decimal::{int_text, integer_text};
use crate::text::{grid, texts};

verus! {

/// One value of a result row.
///
/// A floating-point value is held as the decimal text that its producer made
/// of it; this library does no floating-point work.
#[derive(Debug, Clone, PartialEq, Eq)]
pub enum Cell {
    /// No value.
    Null,
    /// A signed integer.
    Integer(i64),
    /// A floating-point value, as its decimal text.
    Real(String),
    /// A text.
    Text(String),
    /// Raw bytes.
    Binary(Vec<u8>),
}

impl Cell {
    /// The text that a cell is shown as: `NULL` for no value, `BINARY DATA`
    /// for bytes (whatever they are), the decimal text of a number, and a text
    /// as it is.
    pub open spec fn text(self) -> Seq<char> {
        match self {
            Cell::Null => "NULL"@,
            Cell::Integer(n) => int_text(n as int),
            Cell::Real(t) => t@,
            Cell::Text(t) => t@,
            Cell::Binary(_) => "BINARY DATA"@,
        }
    }

    /// Shows the cell. Every cell has a text, and equal cells the same one.
    pub fn render(&self) -> (s: String)
        ensures
            s@ == self.text(),
    {
        match self {
            Cell::Null => String::from_str("NULL"),
            Cell::Integer(n) => integer_text(*n),
            Cell::Real(t) => t.clone(),
            Cell::Text(t) => t.clone(),
            Cell::Binary(_) => String::from_str("BINARY DATA"),
        }
    }
}

/// The texts of the cells of one row, in order.
pub open spec fn row_texts(row: Seq<Cell>) -> Seq<Seq<char>> {
    Seq::new(row.len(), |i: int| row[i].text())
}

/// The texts of the cells of each row, in order.
pub open spec fn rows_texts(rows: Seq<Vec<Cell>>) -> Seq<Seq<Seq<char>>> {
    Seq::new(rows.len(), |i: int| row_texts(rows[i]@))
}

/// Shows each cell of a row.
pub fn render_row(row: &Vec<Cell>) -> (out: Vec<String>)
    ensures
        texts(out@) == row_texts(row@),
{
    let mut out: Vec<String> = Vec::new();
    let mut i: usize = 0;
    while i < row.len()
        invariant
            i <= row.len(),
            out@.len() == i,
            forall|k: int| 0 <= k < i ==> (#[trigger] out@[k])@ == row@[k].text(),
        decreases row.len() - i,
    {
        let s = row[i].render();
        out.push(s);
        i += 1;
    }
    assert(texts(out@) =~= row_texts(row@));
    out
}

/// Shows each cell of each row.
pub fn render_rows(rows: &Vec<Vec<Cell>>) -> (out: Vec<Vec<String>>)
    ensures
        grid(out@) == rows_texts(rows@),
{
    let mut out: Vec<Vec<String>> = Vec::new();
    let mut i: usize = 0;
    while i < rows.len()
        invariant
            i <= rows.len(),
            out@.len() == i,
            forall|k: int|
                0 <= k < i ==> texts((#[trigger] out@[k])@) == row_texts(rows@[k]@),
        decreases rows.len() - i,
    {
        let r = render_row(&rows[i]);
        out.push(r);
        i += 1;
    }
    assert(grid(out@) =~= rows_texts(rows@));
    out
}

/// Showing a row keeps its number of cells, and showing rows keeps their
/// number and the number of cells of each.
pub proof fn lemma_rendering_keeps_shape(rows: Seq<Vec<Cell>>)
    ensures
        rows_texts(rows).len() == rows.len(),
        forall|i: int| 0 <= i < rows.len() ==> (#[trigger] rows_texts(rows)[i]).len() == rows[i]@.len(),
{
}

} // verus!
