//! A bordered text table, drawn by the `tabled` crate.
//!
//! The table is filled through a `tabled::builder::Builder`: one header, then
//! one record per row. What the builder holds is spoken of through
//! [`builder_header`], [`builder_records`] and [`builder_width`]; the drawing
//! itself is not described here but named, by [`sharp_table`].

use vstd::prelude::*;
use tabled::builder::Builder;
use crate::text::{grid, texts};

verus! {

/// The table builder of `tabled`, opaque to the verifier.
#[verifier::external_type_specification]
#[verifier::external_body]
pub struct ExBuilder(tabled::builder::Builder);

/// The header that a builder holds, if one was set.
pub uninterp spec fn builder_header(b: Builder) -> Option<Seq<Seq<char>>>;

/// The records that a builder holds, in the order in which they were pushed.
pub uninterp spec fn builder_records(b: Builder) -> Seq<Seq<Seq<char>>>;

/// The number of columns that a builder counts: the greatest number of cells
/// among all headers and records that it was ever given.
pub uninterp spec fn builder_width(b: Builder) -> nat;

/// The text that `tabled` draws, in its `sharp` style, for a table with this
/// header and these records, each filled up with empty cells to `width`
/// columns.
pub uninterp spec fn sharp_table(
    header: Option<Seq<Seq<char>>>,
    records: Seq<Seq<Seq<char>>>,
    width: nat,
) -> Seq<char>;

/// The greater of two numbers.
pub open spec fn greater(a: nat, b: nat) -> nat {
    if a >= b {
        a
    } else {
        b
    }
}

/// The number of columns of a table: the greatest number of cells among its
/// header and its records.
pub open spec fn table_width(header: Seq<Seq<char>>, records: Seq<Seq<Seq<char>>>) -> nat
    decreases records.len(),
{
    if records.len() == 0 {
        header.len()
    } else {
        greater(table_width(header, records.drop_last()), records.last().len())
    }
}

/// A table in the making. The builder in it is made and filled by this
/// module alone: no setting of it is ever changed.
struct Draft {
    builder: Builder,
}

/// `Builder::default`: a builder without a header, without records and with
/// no column counted.
#[verifier::external_body]
fn draft_new() -> (d: Draft)
    ensures
        builder_header(d.builder) == None::<Seq<Seq<char>>>,
        builder_records(d.builder) == Seq::<Seq<Seq<char>>>::empty(),
        builder_width(d.builder) == 0,
{
    Draft { builder: Builder::default() }
}

/// `Builder::set_header`: the builder then holds the given titles as its
/// header, one cell for each; its records stay as they were; the columns it
/// counts are as many as the titles, unless it counted more before.
#[verifier::external_body]
fn draft_set_header(d: &mut Draft, titles: &Vec<String>)
    ensures
        builder_header(final(d).builder) == Some(texts(titles@)),
        builder_records(final(d).builder) == builder_records(old(d).builder),
        builder_width(final(d).builder) == greater(builder_width(old(d).builder), titles@.len()),
{
    d.builder.set_header(titles.iter());
}

/// `Builder::push_record`: the given row is added after the records that the
/// builder held, one cell for each string; the header stays as it was; the
/// columns it counts are as many as the row's cells, unless it counted more
/// before.
#[verifier::external_body]
fn draft_push_record(d: &mut Draft, row: &Vec<String>)
    ensures
        builder_header(final(d).builder) == builder_header(old(d).builder),
        builder_records(final(d).builder) == builder_records(old(d).builder).push(texts(row@)),
        builder_width(final(d).builder) == greater(builder_width(old(d).builder), row@.len()),
{
    d.builder.push_record(row.iter());
}

/// `Builder::build`, `Table::with` for `Style::sharp()` and the table's
/// `to_string`, on a builder whose settings were never changed: the drawn
/// text depends on the header, the records and the number of columns that
/// the builder counts, up to which header and records are filled with empty
/// cells.
#[verifier::external_body]
fn draft_draw_sharp(d: Draft) -> (text: String)
    ensures
        text@ == sharp_table(
            builder_header(d.builder),
            builder_records(d.builder),
            builder_width(d.builder),
        ),
{
    d.builder.build().with(tabled::settings::Style::sharp()).to_string()
}

/// Draws the table with the given titles as header and one record per row.
///
/// Rows need not be as long as the header: the table has as many columns as
/// the longest of them, and every cell that is given is handed on, in its
/// place.
pub fn draw_table(titles: &Vec<String>, rows: &Vec<Vec<String>>) -> (text: String)
    ensures
        text@ == sharp_table(
            Some(texts(titles@)),
            grid(rows@),
            table_width(texts(titles@), grid(rows@)),
        ),
{
    let mut d = draft_new();
    draft_set_header(&mut d, titles);
    let mut i: usize = 0;
    while i < rows.len()
        invariant
            i <= rows.len(),
            builder_header(d.builder) == Some(texts(titles@)),
            builder_records(d.builder) == grid(rows@).take(i as int),
            builder_width(d.builder) == table_width(texts(titles@), grid(rows@).take(i as int)),
        decreases rows.len() - i,
    {
        draft_push_record(&mut d, &rows[i]);
        proof {
            let next = grid(rows@).take(i + 1);
            assert(next.drop_last() =~= grid(rows@).take(i as int));
            assert(next.last() == texts(rows[i as int]@));
            assert(next =~= grid(rows@).take(i as int).push(texts(rows[i as int]@)));
        }
        i += 1;
    }
    assert(grid(rows@).take(i as int) =~= grid(rows@));
    draft_draw_sharp(d)
}

/// A table whose records are all as long as its header has as many columns
/// as the header has cells.
pub proof fn lemma_width_of_even_table(header: Seq<Seq<char>>, records: Seq<Seq<Seq<char>>>)
    requires
        forall|i: int| 0 <= i < records.len() ==> (#[trigger] records[i]).len() == header.len(),
    ensures
        table_width(header, records) == header.len(),
    decreases records.len(),
{
    if records.len() > 0 {
        lemma_width_of_even_table(header, records.drop_last());
    }
}

} // verus!
