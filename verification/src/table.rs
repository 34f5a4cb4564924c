//! Table mode: the record sequence rendered as a bordered, colored terminal
//! table. The cell texts are built here and proved; the drawing itself —
//! borders, padding, colors — is tabled's.

use vstd::prelude::*;
use crate::entry::{EntryView, FileEntry, views_of};
use crate::num::{dec_text, u64_text};

verus! {

/// The header row of the table: the four column titles.
pub open spec fn header_row() -> Seq<Seq<char>> {
    seq!["Name"@, "Type"@, "Size B"@, "modified"@]
}

/// The table row of one record: its name, kind label, size text and date.
pub open spec fn row_of(v: EntryView) -> Seq<Seq<char>> {
    seq![v.name, v.e_type.label_spec(), dec_text(v.len_bytes as int), v.modified]
}

/// The cell texts of the whole table: the header row, then one row per
/// record, in order.
pub open spec fn rows_of(vs: Seq<EntryView>) -> Seq<Seq<Seq<char>>> {
    seq![header_row()] + vs.map_values(|v: EntryView| row_of(v))
}

/// The rendered table for given cell rows: a rounded-border table with the
/// fixed header and column colors, one line of cells per row.
pub uninterp spec fn table_text_of(rows: Seq<Seq<Seq<char>>>) -> Seq<char>;

/// Relies on tabled: a `Table` built from rows of cell strings, with the
/// rounded style, the name, size and date columns in bright cyan, magenta
/// and yellow and the first row in bright green, prints a text that depends
/// on the cell texts alone.
#[verifier::external_body]
fn render_table(rows: Vec<Vec<String>>) -> (r: String)
    ensures
        r@ == table_text_of(rows.deep_view()),
{
    let mut table = tabled::Table::from_iter(rows);
    table.with(tabled::settings::Style::rounded());
    table.modify(tabled::settings::object::Columns::first(), tabled::settings::Color::FG_BRIGHT_CYAN);
    table.modify(tabled::settings::object::Columns::one(2), tabled::settings::Color::FG_BRIGHT_MAGENTA);
    table.modify(tabled::settings::object::Columns::one(3), tabled::settings::Color::FG_BRIGHT_YELLOW);
    table.modify(tabled::settings::object::Rows::first(), tabled::settings::Color::FG_BRIGHT_GREEN);
    format!("{}", table)
}

/// Builds the cell texts of one record's row.
fn row_strings(e: &FileEntry) -> (r: Vec<String>)
    ensures
        r.deep_view() == row_of(e@),
{
    let mut row: Vec<String> = Vec::new();
    row.push(e.name.clone());
    row.push(String::from_str(e.e_type.label()));
    row.push(u64_text(e.len_bytes));
    row.push(e.modified.clone());
    proof {
        assert(row.deep_view() =~~= row_of(e@));
    }
    row
}

/// Builds the cell texts of the table: the header row, then one row per
/// record, in order.
pub fn table_rows(entries: &Vec<FileEntry>) -> (r: Vec<Vec<String>>)
    ensures
        r.deep_view() == rows_of(views_of(entries@)),
{
    let mut rows: Vec<Vec<String>> = Vec::new();
    let mut header: Vec<String> = Vec::new();
    header.push(String::from_str("Name"));
    header.push(String::from_str("Type"));
    header.push(String::from_str("Size B"));
    header.push(String::from_str("modified"));
    proof {
        assert(header.deep_view() =~~= header_row());
    }
    rows.push(header);
    proof {
        assert(rows.deep_view() =~~= rows_of(views_of(entries@.take(0))));
    }
    let mut i: usize = 0;
    while i < entries.len()
        invariant
            i <= entries.len(),
            rows.deep_view() == rows_of(views_of(entries@.take(i as int))),
        decreases entries.len() - i,
    {
        let row = row_strings(&entries[i]);
        let ghost prev_vec = rows@;
        let ghost prev_deep = rows.deep_view();
        rows.push(row);
        proof {
            let prev = views_of(entries@.take(i as int));
            let next = views_of(entries@.take(i as int + 1));
            assert(next =~= prev.push(entries@[i as int]@));
            assert(rows@ == prev_vec.push(row));
            assert forall|j: int| 0 <= j < prev_vec.len() implies rows@[j].deep_view()
                == prev_deep[j] by {
                assert(rows@[j] == prev_vec[j]);
            }
            assert(rows.deep_view() =~~= prev_deep.push(row.deep_view()));
            assert(rows.deep_view() =~~= rows_of(next));
        }
        i = i + 1;
    }
    proof {
        assert(entries@.take(entries@.len() as int) =~= entries@);
    }
    rows
}

/// Renders the records as the bordered table text.
pub fn to_table(entries: &Vec<FileEntry>) -> (r: String)
    ensures
        r@ == table_text_of(rows_of(views_of(entries@))),
{
    let rows = table_rows(entries);
    render_table(rows)
}

} // verus!
