//! The response body: the listing as JSON text, an array of objects with
//! the keys `filename` and `size`.

use crate::scan::{listed, FileEntry, Listed};
use vstd::prelude::*;
use vstd::string::StringExecFns;

verus! {

/// The sixteen digits, lower case, by value.
pub open spec fn digits() -> Seq<char> {
    seq!['0', '1', '2', '3', '4', '5', '6', '7', '8', '9', 'a', 'b', 'c', 'd', 'e', 'f']
}

/// A number in decimal, without sign or leading zeros.
pub open spec fn decimal(n: nat) -> Seq<char>
    decreases n,
{
    if n < 10 {
        seq![digits()[n as int]]
    } else {
        decimal(n / 10).push(digits()[(n % 10) as int])
    }
}

/// One character as it stands inside a JSON string. The quotation mark and
/// the backslash get a backslash in front; backspace, tab, line feed, form
/// feed and carriage return get their letter; every other control character
/// below the space is written as `\u00` and two hexadecimal digits; every
/// other character stands for itself.
pub open spec fn escaped(c: char) -> Seq<char> {
    if c == '"' {
        seq!['\\', '"']
    } else if c == '\\' {
        seq!['\\', '\\']
    } else if c == '\u{8}' {
        seq!['\\', 'b']
    } else if c == '\t' {
        seq!['\\', 't']
    } else if c == '\n' {
        seq!['\\', 'n']
    } else if c == '\u{c}' {
        seq!['\\', 'f']
    } else if c == '\r' {
        seq!['\\', 'r']
    } else if (c as u32) < 0x20 {
        seq!['\\', 'u', '0', '0', digits()[(c as u32) as int / 16], digits()[(c as u32) as int % 16]]
    } else {
        seq![c]
    }
}

/// A text with every character escaped, in order.
pub open spec fn escaped_text(text: Seq<char>) -> Seq<char>
    decreases text.len(),
{
    if text.len() == 0 {
        Seq::empty()
    } else {
        escaped_text(text.drop_last()) + escaped(text.last())
    }
}

/// A text as a JSON string: escaped, between quotation marks.
pub open spec fn json_string(text: Seq<char>) -> Seq<char> {
    seq!['"'] + escaped_text(text) + seq!['"']
}

/// One line of the listing as a JSON object: the file name as a string
/// under `filename`, then the size as a number under `size`.
pub open spec fn json_entry(entry: Listed) -> Seq<char> {
    "{\"filename\":"@ + json_string(entry.filename) + ",\"size\":"@ + decimal(entry.size as nat)
        + seq!['}']
}

/// The objects of a listing in order, with a comma between neighbours.
pub open spec fn json_entries(listing: Seq<Listed>) -> Seq<char>
    decreases listing.len(),
{
    if listing.len() == 0 {
        Seq::empty()
    } else if listing.len() == 1 {
        json_entry(listing[0])
    } else {
        json_entries(listing.drop_last()) + seq![','] + json_entry(listing.last())
    }
}

/// A listing as JSON text: its objects between square brackets. The empty
/// listing is `[]`.
pub open spec fn json_array(listing: Seq<Listed>) -> Seq<char> {
    seq!['['] + json_entries(listing) + seq![']']
}

/// `String::push` appends the character to the end of the string.
pub assume_specification[ String::push ](text: &mut String, c: char)
    ensures
        final(text)@ == old(text)@.push(c),
;

fn digit(value: u8) -> (c: char)
    requires
        value < 16,
    ensures
        c == digits()[value as int],
{
    let table: [char; 16] = [
        '0',
        '1',
        '2',
        '3',
        '4',
        '5',
        '6',
        '7',
        '8',
        '9',
        'a',
        'b',
        'c',
        'd',
        'e',
        'f',
    ];
    table[value as usize]
}

fn write_decimal(out: &mut String, n: u64)
    ensures
        final(out)@ == old(out)@ + decimal(n as nat),
    decreases n,
{
    if n >= 10 {
        write_decimal(out, n / 10);
    }
    out.push(digit((n % 10) as u8));
}

fn write_escaped(out: &mut String, c: char)
    ensures
        final(out)@ == old(out)@ + escaped(c),
{
    let code: u32 = c as u32;
    if c == '"' || c == '\\' {
        out.push('\\');
        out.push(c);
    } else if code >= 0x20 {
        out.push(c);
    } else {
        out.push('\\');
        if c == '\u{8}' {
            out.push('b');
        } else if c == '\t' {
            out.push('t');
        } else if c == '\n' {
            out.push('n');
        } else if c == '\u{c}' {
            out.push('f');
        } else if c == '\r' {
            out.push('r');
        } else {
            out.push('u');
            out.push('0');
            out.push('0');
            out.push(digit((code / 16) as u8));
            out.push(digit((code % 16) as u8));
        }
    }
}

fn write_string(out: &mut String, text: &str)
    ensures
        final(out)@ == old(out)@ + json_string(text@),
{
    out.push('"');
    let ghost opened = out@;
    for c in it: text.chars()
        invariant
            it.seq() == text@,
            out@ == opened + escaped_text(text@.take(it.index())),
    {
        assert(text@.take(it.index() + 1).drop_last() =~= text@.take(it.index()));
        write_escaped(out, c);
    }
    assert(text@.take(text@.len() as int) =~= text@);
    out.push('"');
}

fn write_entry(out: &mut String, entry: &FileEntry)
    ensures
        final(out)@ == old(out)@ + json_entry(entry@),
{
    out.append("{\"filename\":");
    write_string(out, entry.filename.as_str());
    out.append(",\"size\":");
    write_decimal(out, entry.size);
    out.push('}');
}

/// Writes the listing as JSON text: `[]` for an empty listing, otherwise one
/// object for each entry, in the order of the listing.
pub fn render_listing(entries: &Vec<FileEntry>) -> (body: String)
    ensures
        body@ == json_array(listed(entries@)),
{
    let mut body = String::new();
    body.push('[');
    let mut i: usize = 0;
    while i < entries.len()
        invariant
            i <= entries.len(),
            body@ == seq!['['] + json_entries(listed(entries@).take(i as int)),
        decreases entries.len() - i,
    {
        if i > 0 {
            body.push(',');
        }
        write_entry(&mut body, &entries[i]);
        proof {
            let upto = listed(entries@).take(i + 1);
            assert(upto.drop_last() =~= listed(entries@).take(i as int));
            assert(upto.last() == entries@[i as int]@);
        }
        i += 1;
    }
    assert(listed(entries@).take(i as int) =~= listed(entries@));
    body.push(']');
    body
}

} // verus!
