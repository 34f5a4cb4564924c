//! Raw directory entries and their mapping to flat listing records.
//!
//! A raw entry carries, as plain values, what a directory read yields for one
//! entry: the decoded name, if the name was valid text, and the metadata, if
//! it could be retrieved. Mapping turns each raw entry with readable metadata
//! into a [`FileEntry`]; entries without metadata are silently dropped.

use vstd::prelude::*;
use crate::EntryType;

verus! {

/// Metadata of one directory entry, as plain values.
#[derive(Clone, Copy)]
pub struct RawMeta {
    /// Whether the entry is a directory.
    pub is_dir: bool,
    /// The raw size in bytes.
    pub len_bytes: u64,
    /// Seconds since the Unix epoch of the last modification, if available.
    pub modified_secs: Option<i64>,
}

/// One raw directory entry.
pub struct RawEntry {
    /// The file name, if it could be decoded as text.
    pub name: Option<String>,
    /// The entry's metadata, if it could be retrieved.
    pub meta: Option<RawMeta>,
}

/// A flat listing record: one line of the output, in either mode.
pub struct FileEntry {
    pub name: String,
    pub e_type: EntryType,
    pub len_bytes: u64,
    /// The formatted modification date, or the empty string where none is known.
    pub modified: String,
}

/// The mathematical content of a [`FileEntry`].
pub struct EntryView {
    pub name: Seq<char>,
    pub e_type: EntryType,
    pub len_bytes: u64,
    pub modified: Seq<char>,
}

impl View for FileEntry {
    type V = EntryView;

    open spec fn view(&self) -> EntryView {
        EntryView {
            name: self.name@,
            e_type: self.e_type,
            len_bytes: self.len_bytes,
            modified: self.modified@,
        }
    }
}

/// The views of a sequence of records.
pub open spec fn views_of(s: Seq<FileEntry>) -> Seq<EntryView> {
    s.map_values(|e: FileEntry| e@)
}

/// The least modification timestamp, in seconds since the Unix epoch, that
/// the date formatter accepts (midnight of the first representable day).
pub const MIN_DATE_SECS: i64 = -8334601228800;

/// The greatest modification timestamp the date formatter accepts (the last
/// second of the last representable day).
pub const MAX_DATE_SECS: i64 = 8210266876799;

/// The date text "<weekday> <month> <day> <year>" of a modification
/// timestamp, given in seconds since the Unix epoch.
pub uninterp spec fn date_text_of(secs: int) -> Seq<char>;

/// Relies on chrono: `DateTime::<Utc>::from_timestamp(secs, 0)` yields a date
/// exactly for the seconds between `MIN_DATE_SECS` and `MAX_DATE_SECS` (the
/// bounds of chrono's calendar), and formatting that UTC date with
/// "%a %b %e %Y" depends on the timestamp alone.
#[verifier::external_body]
fn format_date(secs: i64) -> (r: Option<String>)
    ensures
        r is Some <==> MIN_DATE_SECS <= secs <= MAX_DATE_SECS,
        (r matches Some(t) ==> t@ == date_text_of(secs as int)),
{
    match chrono::DateTime::<chrono::Utc>::from_timestamp(secs, 0) {
        Some(d) => Some(format!("{}", d.format("%a %b %e %Y"))),
        None => None,
    }
}

/// The text shown for a modification timestamp: the formatted date where one
/// is known and representable, the empty string otherwise.
pub open spec fn modified_text(modified_secs: Option<i64>) -> Seq<char> {
    match modified_secs {
        Some(secs) => if MIN_DATE_SECS <= secs <= MAX_DATE_SECS {
            date_text_of(secs as int)
        } else {
            Seq::empty()
        },
        None => Seq::empty(),
    }
}

/// The name shown for an entry: the decoded file name, or the fixed
/// placeholder where the name was not valid text.
pub open spec fn shown_name(name: Option<String>) -> Seq<char> {
    match name {
        Some(n) => n@,
        None => "unknown name"@,
    }
}

/// The record view that a raw entry with metadata `m` maps to.
pub open spec fn view_of_raw(r: RawEntry, m: RawMeta) -> EntryView {
    EntryView {
        name: shown_name(r.name),
        e_type: if m.is_dir { EntryType::Dir } else { EntryType::File },
        len_bytes: m.len_bytes,
        modified: modified_text(m.modified_secs),
    }
}

/// The record views of a raw listing: one per entry with readable metadata,
/// in the order the entries came, the others absent.
pub open spec fn listed_views(s: Seq<RawEntry>) -> Seq<EntryView>
    decreases s.len(),
{
    if s.len() == 0 {
        Seq::empty()
    } else {
        listed_views(s.drop_last()) + (match s.last().meta {
            Some(m) => seq![view_of_raw(s.last(), m)],
            None => Seq::empty(),
        })
    }
}

/// How many entries of a raw listing have readable metadata.
pub open spec fn readable_count(s: Seq<RawEntry>) -> nat
    decreases s.len(),
{
    if s.len() == 0 {
        0
    } else {
        readable_count(s.drop_last()) + (if s.last().meta is Some {
            1nat
        } else {
            0nat
        })
    }
}

/// A listing holds exactly one record per entry with readable metadata.
pub proof fn lemma_listing_count(s: Seq<RawEntry>)
    ensures
        listed_views(s).len() == readable_count(s),
    decreases s.len(),
{
    if s.len() > 0 {
        lemma_listing_count(s.drop_last());
    }
}

/// An entry whose metadata cannot be read is absent from the listing, and no
/// other entry is affected: dropping it from the raw listing changes nothing.
pub proof fn lemma_unreadable_entry_absent(s: Seq<RawEntry>, i: int)
    requires
        0 <= i < s.len(),
        s[i].meta is None,
    ensures
        listed_views(s.remove(i)) == listed_views(s),
    decreases s.len(),
{
    if i == s.len() - 1 {
        assert(s.remove(i) =~= s.drop_last());
        assert(listed_views(s) =~= listed_views(s.drop_last()));
    } else {
        lemma_unreadable_entry_absent(s.drop_last(), i);
        assert(s.remove(i).drop_last() =~= s.drop_last().remove(i));
        assert(s.remove(i).last() == s.last());
    }
}

/// Appends the record for one raw entry to `data`. An entry whose metadata
/// could not be read produces no record and leaves `data` unchanged.
pub fn map_data(data: &mut Vec<FileEntry>, entry: &RawEntry)
    ensures
        (entry.meta matches Some(m) ==> views_of(final(data)@) == views_of(old(data)@).push(
            view_of_raw(*entry, m),
        )),
        entry.meta is None ==> final(data)@ == old(data)@,
{
    match &entry.meta {
        Some(m) => {
            let name: String = match &entry.name {
                Some(n) => n.clone(),
                None => String::from_str("unknown name"),
            };
            let e_type = if m.is_dir {
                EntryType::Dir
            } else {
                EntryType::File
            };
            let modified: String = match m.modified_secs {
                Some(secs) => {
                    if MIN_DATE_SECS <= secs && secs <= MAX_DATE_SECS {
                        format_date(secs).unwrap()
                    } else {
                        String::new()
                    }
                },
                None => String::new(),
            };
            let rec = FileEntry { name, e_type, len_bytes: m.len_bytes, modified };
            data.push(rec);
            proof {
                assert(views_of(data@) =~= views_of(old(data)@).push(view_of_raw(*entry, *m)));
            }
        },
        None => {},
    }
}

/// Maps a raw directory listing to its records, in order, dropping every
/// entry whose metadata could not be read.
pub fn get_files(entries: &Vec<RawEntry>) -> (r: Vec<FileEntry>)
    ensures
        views_of(r@) == listed_views(entries@),
{
    let mut data: Vec<FileEntry> = Vec::new();
    let mut i: usize = 0;
    proof {
        assert(entries@.take(0) =~= Seq::<RawEntry>::empty());
        assert(views_of(data@) =~= Seq::<EntryView>::empty());
    }
    while i < entries.len()
        invariant
            i <= entries.len(),
            views_of(data@) == listed_views(entries@.take(i as int)),
        decreases entries.len() - i,
    {
        let ghost prefix = entries@.take(i as int);
        map_data(&mut data, &entries[i]);
        proof {
            let next = entries@.take(i as int + 1);
            assert(next.drop_last() =~= prefix);
            assert(next.last() == entries@[i as int]);
            match entries@[i as int].meta {
                Some(m) => {
                    assert(views_of(data@) =~= listed_views(next));
                },
                None => {
                    assert(listed_views(next) =~= listed_views(prefix));
                },
            }
        }
        i = i + 1;
    }
    proof {
        assert(entries@.take(entries@.len() as int) =~= entries@);
    }
    data
}

} // verus!
