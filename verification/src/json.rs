//! JSON mode: the record sequence rendered as a JSON array, each record as
//! an object with the fields `name`, `e_type`, `len_bytes` and `modified`,
//! in that order.

use vstd::prelude::*;
use crate::entry::{EntryView, FileEntry, views_of};
use crate::num::{dec_digit, dec_text, u64_text};

verus! {

/// The lowercase hexadecimal digit character for `d`, between 0 and 15.
pub open spec fn hex_digit(d: int) -> char {
    if d < 10 {
        dec_digit(d)
    } else if d == 10 {
        'a'
    } else if d == 11 {
        'b'
    } else if d == 12 {
        'c'
    } else if d == 13 {
        'd'
    } else if d == 14 {
        'e'
    } else {
        'f'
    }
}

/// How one character appears inside a JSON string literal: the quote, the
/// backslash and the control characters are escaped (the five short escapes
/// where JSON has them, `\u00XX` with lowercase hex for the rest), every
/// other character stands for itself.
pub open spec fn json_escaped_char(c: char) -> Seq<char> {
    if c == '"' {
        seq!['\\', '"']
    } else if c == '\\' {
        seq!['\\', '\\']
    } else if c == '\u{8}' {
        seq!['\\', 'b']
    } else if c == '\t' {
        seq!['\\', 't']
    } else if c == '\n' {
        seq!['\\', 'n']
    } else if c == '\u{c}' {
        seq!['\\', 'f']
    } else if c == '\r' {
        seq!['\\', 'r']
    } else if (c as int) < 0x20 {
        seq!['\\', 'u', '0', '0', hex_digit(c as int / 16), hex_digit(c as int % 16)]
    } else {
        seq![c]
    }
}

/// The body of a JSON string literal: each character escaped as JSON asks.
pub open spec fn json_escaped(s: Seq<char>) -> Seq<char>
    decreases s.len(),
{
    if s.len() == 0 {
        Seq::empty()
    } else {
        json_escaped(s.drop_last()) + json_escaped_char(s.last())
    }
}

/// The JSON string literal for a text: the escaped body in double quotes.
pub open spec fn json_quoted(s: Seq<char>) -> Seq<char> {
    seq!['"'] + json_escaped(s) + seq!['"']
}

/// Relies on serde_json::to_string on a string slice: the result is the JSON
/// string literal, that is the text in double quotes with `"`, `\` and the
/// control characters escaped (`\b`, `\t`, `\n`, `\f`, `\r`, else `\u00XX`
/// with lowercase hex) and every other character kept as it is; on a string
/// slice serialization never fails.
#[verifier::external_body]
fn json_quote(s: &str) -> (r: String)
    ensures
        r@ == json_quoted(s@),
{
    serde_json::to_string(s).unwrap()
}

/// The JSON object text of one record: its four fields, in order, the kind
/// as its quoted label, the size as its base-ten digits.
pub open spec fn json_entry(v: EntryView) -> Seq<char> {
    "{\"name\":"@ + json_quoted(v.name) + ",\"e_type\":"@ + json_quoted(v.e_type.label_spec())
        + ",\"len_bytes\":"@ + dec_text(v.len_bytes as int) + ",\"modified\":"@ + json_quoted(
        v.modified,
    ) + "}"@
}

/// The object texts of the records, one per record, in order.
pub open spec fn json_parts(vs: Seq<EntryView>) -> Seq<Seq<char>> {
    vs.map_values(|v: EntryView| json_entry(v))
}

/// A sequence of texts joined by commas.
pub open spec fn comma_joined(parts: Seq<Seq<char>>) -> Seq<char>
    decreases parts.len(),
{
    if parts.len() == 0 {
        Seq::empty()
    } else if parts.len() == 1 {
        parts[0]
    } else {
        comma_joined(parts.drop_last()) + seq![','] + parts.last()
    }
}

/// The JSON array text of a record sequence.
pub open spec fn json_text(vs: Seq<EntryView>) -> Seq<char> {
    seq!['['] + comma_joined(json_parts(vs)) + seq![']']
}

/// Renders one record as its JSON object.
fn json_entry_text(e: &FileEntry) -> (r: String)
    ensures
        r@ == json_entry(e@),
{
    let mut s = String::from_str("{\"name\":");
    let name = json_quote(e.name.as_str());
    s.append(name.as_str());
    s.append(",\"e_type\":");
    let label = json_quote(e.e_type.label());
    s.append(label.as_str());
    s.append(",\"len_bytes\":");
    let size = u64_text(e.len_bytes);
    s.append(size.as_str());
    s.append(",\"modified\":");
    let modified = json_quote(e.modified.as_str());
    s.append(modified.as_str());
    s.append("}");
    proof {
        assert(s@ =~= json_entry(e@));
    }
    s
}

/// Renders the records as a JSON array: one object per record, in order.
pub fn to_json(entries: &Vec<FileEntry>) -> (r: String)
    ensures
        r@ == json_text(views_of(entries@)),
{
    let ghost parts = json_parts(views_of(entries@));
    let mut s = String::from_str("[");
    proof {
        reveal_strlit("[");
        assert(s@ =~= seq!['['] + comma_joined(parts.take(0)));
    }
    let mut i: usize = 0;
    while i < entries.len()
        invariant
            i <= entries.len(),
            parts == json_parts(views_of(entries@)),
            parts.len() == entries@.len(),
            s@ == seq!['['] + comma_joined(parts.take(i as int)),
        decreases entries.len() - i,
    {
        if i > 0 {
            s.append(",");
            proof {
                reveal_strlit(",");
            }
        }
        let t = json_entry_text(&entries[i]);
        s.append(t.as_str());
        proof {
            let next = parts.take(i as int + 1);
            assert(next.drop_last() =~= parts.take(i as int));
            assert(next.last() == json_entry(entries@[i as int]@));
            if i == 0 {
                assert(comma_joined(next) == next[0]);
                assert(s@ =~= seq!['['] + comma_joined(next));
            } else {
                assert(s@ =~= seq!['['] + comma_joined(next));
            }
        }
        i = i + 1;
    }
    s.append("]");
    proof {
        reveal_strlit("]");
        assert(parts.take(entries@.len() as int) =~= parts);
        assert(s@ =~= json_text(views_of(entries@)));
    }
    s
}

} // verus!
