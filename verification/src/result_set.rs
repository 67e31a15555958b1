//! The answer to one statement and the block of text that it is shown as.

use vstd::prelude::*;
use vstd::string::*;
use crate::cell::{render_rows, rows_texts, Cell};
use crate::table::{draw_table, lemma_width_of_even_table, sharp_table, table_width};
use crate::text::texts;

verus! {

/// The column names that a statement produced and its rows, in order.
#[derive(Debug, Clone, PartialEq, Eq)]
pub struct ResultSet {
    /// The column names; none for a statement that produces no columns.
    pub titles: Vec<String>,
    /// The rows, each a list of cells.
    pub rows: Vec<Vec<Cell>>,
}

impl ResultSet {
    /// Every row has one cell for each column name.
    pub open spec fn is_rectangular(self) -> bool {
        forall|i: int| 0 <= i < self.rows@.len() ==> (#[trigger] self.rows@[i])@.len() == self.titles@.len()
    }

    /// The header of the table that is drawn: the column names.
    pub open spec fn header(self) -> Seq<Seq<char>> {
        texts(self.titles@)
    }

    /// The records of the table that is drawn: for each row the texts of its
    /// cells.
    pub open spec fn records(self) -> Seq<Seq<Seq<char>>> {
        rows_texts(self.rows@)
    }

    /// What is shown for the result set: the line `No Data` where it has no
    /// row, and else the table of its column names and rows.
    pub open spec fn display_text(self) -> Seq<char> {
        if self.rows@.len() == 0 {
            "No Data"@
        } else {
            sharp_table(
                Some(self.header()),
                self.records(),
                table_width(self.header(), self.records()),
            )
        }
    }

    /// A result set with the given column names and no rows yet.
    pub fn new(titles: Vec<String>) -> (rs: ResultSet)
        ensures
            rs.titles == titles,
            rs.rows@.len() == 0,
    {
        ResultSet { titles, rows: Vec::new() }
    }

    /// Takes the outcome of reading one more row: a row that was read is
    /// added after the others, one that could not be read is passed over.
    pub fn offer(&mut self, outcome: Option<Vec<Cell>>)
        ensures
            final(self).titles == old(self).titles,
            outcome is Some ==> final(self).rows@ == old(self).rows@.push(outcome->0),
            outcome is None ==> final(self).rows == old(self).rows,
    {
        match outcome {
            Some(row) => {
                self.rows.push(row);
            },
            None => {},
        }
    }

    /// The number of rows.
    pub fn row_count(&self) -> (n: usize)
        ensures
            n == self.rows@.len(),
    {
        self.rows.len()
    }

    /// The text that is shown for the result set, without a line end.
    pub fn display(&self) -> (text: String)
        ensures
            text@ == self.display_text(),
    {
        if self.rows.len() == 0 {
            String::from_str("No Data")
        } else {
            let shown = render_rows(&self.rows);
            draw_table(&self.titles, &shown)
        }
    }
}

/// A result set without rows is shown as the line `No Data`, whatever its
/// column names are.
pub proof fn lemma_no_rows_no_data(rs: ResultSet)
    requires
        rs.rows@.len() == 0,
    ensures
        rs.display_text() == "No Data"@,
{
}

/// In the table of a result set with rows, the header has one cell for each
/// column name and there is one record for each row; where every row has one
/// cell for each column name, so has every record, and the table has one
/// column for each column name.
pub proof fn lemma_table_shape(rs: ResultSet)
    requires
        rs.rows@.len() > 0,
    ensures
        rs.display_text() == sharp_table(
            Some(rs.header()),
            rs.records(),
            table_width(rs.header(), rs.records()),
        ),
        rs.header().len() == rs.titles@.len(),
        rs.records().len() == rs.rows@.len(),
        rs.is_rectangular() ==> forall|i: int|
            0 <= i < rs.records().len() ==> (#[trigger] rs.records()[i]).len() == rs.header().len(),
        rs.is_rectangular() ==> table_width(rs.header(), rs.records()) == rs.titles@.len(),
{
    if rs.is_rectangular() {
        assert forall|i: int| 0 <= i < rs.records().len() implies (#[trigger] rs.records()[i]).len()
            == rs.header().len() by {
            assert(rs.rows@[i]@.len() == rs.titles@.len());
        }
        lemma_width_of_even_table(rs.header(), rs.records());
    }
}

} // verus!
