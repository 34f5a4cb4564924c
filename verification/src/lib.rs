//! A small directory-listing library: directory entries, read as plain
//! values, are mapped to flat records and rendered either as a JSON array
//! or as rows for a bordered terminal table.

pub mod entry;
pub mod json;
pub mod num;
pub mod table;

use vstd::prelude::*;
use crate::entry::{EntryView, FileEntry, RawEntry, listed_views, readable_count, views_of};
use crate::json::{json_entry, json_parts, json_text};
use crate::num::dec_text;
use crate::table::{row_of, rows_of, table_text_of};

verus! {

/// Classification of a directory entry.
#[derive(Debug, Clone, Copy, PartialEq, Eq, Structural)]
pub enum EntryType {
    File,
    Dir,
}

impl EntryType {
    /// The textual label of the entry kind, as it appears in both output modes.
    pub open spec fn label_spec(self) -> Seq<char> {
        match self {
            EntryType::File => "File"@,
            EntryType::Dir => "Dir"@,
        }
    }

    /// Returns the textual label of the entry kind.
    pub fn label(&self) -> (r: &'static str)
        ensures
            r@ == self.label_spec(),
    {
        match self {
            EntryType::File => "File",
            EntryType::Dir => "Dir",
        }
    }
}

/// What the directory reader found at the listed path.
#[derive(Debug, Clone, Copy, PartialEq, Eq, Structural)]
pub enum PathStatus {
    /// The path exists and the listing can proceed.
    Exists,
    /// The path does not exist.
    Missing,
    /// Whether the path exists could not be determined.
    Unreadable,
}

/// The message shown for a path that cannot be listed, and nothing for one
/// that can: a missing path gets exactly "Path does not exist.", a path whose
/// existence could not be checked gets "Error reading directory".
pub fn status_message(status: PathStatus) -> (r: Option<String>)
    ensures
        status is Missing ==> (r matches Some(m) && m@ == "Path does not exist."@),
        status is Unreadable ==> (r matches Some(m) && m@ == "Error reading directory"@),
        status is Exists <==> r is None,
{
    match status {
        PathStatus::Exists => None,
        PathStatus::Missing => Some(String::from_str("Path does not exist.")),
        PathStatus::Unreadable => Some(String::from_str("Error reading directory")),
    }
}

/// Renders a record sequence in the selected mode: the JSON array where
/// `json` is set, else the bordered table text.
pub fn render(entries: &Vec<FileEntry>, json: bool) -> (r: String)
    ensures
        json ==> r@ == json_text(views_of(entries@)),
        !json ==> r@ == table_text_of(rows_of(views_of(entries@))),
{
    if json {
        crate::json::to_json(entries)
    } else {
        crate::table::to_table(entries)
    }
}

/// A raw listing with some number of readable entries yields exactly that
/// many records, each of a non-negative size, and each output mode carries
/// exactly one item per record: the JSON array one object per record, the
/// table one row per record below its single header row.
pub proof fn lemma_output_count(raws: Seq<RawEntry>)
    ensures
        listed_views(raws).len() == readable_count(raws),
        forall|j: int| 0 <= j < listed_views(raws).len() ==> #[trigger] listed_views(
            raws,
        )[j].len_bytes >= 0,
        json_parts(listed_views(raws)).len() == listed_views(raws).len(),
        rows_of(listed_views(raws)).len() == listed_views(raws).len() + 1,
{
    crate::entry::lemma_listing_count(raws);
}

/// Table mode and JSON mode describe the same records: rendered from one
/// snapshot, the table row below the header for each record carries exactly
/// the record's name, kind label, size text and date, and the JSON array
/// element for the same record is the object built from those same four
/// texts.
pub proof fn lemma_modes_describe_same_records(vs: Seq<EntryView>)
    ensures
        rows_of(vs).len() == vs.len() + 1,
        json_parts(vs).len() == vs.len(),
        forall|i: int| 1 <= i <= vs.len() ==> #[trigger] rows_of(vs)[i] == row_of(vs[i - 1]),
        forall|i: int| 0 <= i < vs.len() ==> #[trigger] json_parts(vs)[i] == json_entry(vs[i]),
        forall|i: int| 0 <= i < vs.len() ==> #[trigger] row_of(vs[i]) == seq![
            vs[i].name,
            vs[i].e_type.label_spec(),
            dec_text(vs[i].len_bytes as int),
            vs[i].modified,
        ],
        forall|i: int| 0 <= i < vs.len() ==> #[trigger] json_entry(vs[i]) == "{\"name\":"@
            + crate::json::json_quoted(vs[i].name) + ",\"e_type\":"@ + crate::json::json_quoted(
            vs[i].e_type.label_spec(),
        ) + ",\"len_bytes\":"@ + dec_text(vs[i].len_bytes as int) + ",\"modified\":"@
            + crate::json::json_quoted(vs[i].modified) + "}"@,
{
}

} // verus!
