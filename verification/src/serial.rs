use vstd::prelude::*;
use vstd::string::StringExecFns;

use crate::record::{Record, RecordView};

verus! {

// ---------------------------------------------------------------------------
// Decimal rendering of the identifier
// ---------------------------------------------------------------------------

/// The character for one decimal digit.
pub open spec fn digit_char(d: int) -> char {
    if d == 0 {
        '0'
    } else if d == 1 {
        '1'
    } else if d == 2 {
        '2'
    } else if d == 3 {
        '3'
    } else if d == 4 {
        '4'
    } else if d == 5 {
        '5'
    } else if d == 6 {
        '6'
    } else if d == 7 {
        '7'
    } else if d == 8 {
        '8'
    } else {
        '9'
    }
}

/// The decimal digits of a nonnegative integer, most significant first,
/// with no leading zeros (a single `'0'` for zero).
pub open spec fn dec_digits(n: nat) -> Seq<char>
    decreases n,
{
    if n < 10 {
        seq![digit_char(n as int)]
    } else {
        dec_digits(n / 10) + seq![digit_char((n % 10) as int)]
    }
}

/// The decimal rendering of an integer, with a leading `'-'` when negative.
pub open spec fn int_chars(i: int) -> Seq<char> {
    if i < 0 {
        seq!['-'] + dec_digits((-i) as nat)
    } else {
        dec_digits(i as nat)
    }
}

fn digit_char_exec(d: u64) -> (c: char)
    requires
        d < 10,
    ensures
        c == digit_char(d as int),
{
    if d == 0 {
        '0'
    } else if d == 1 {
        '1'
    } else if d == 2 {
        '2'
    } else if d == 3 {
        '3'
    } else if d == 4 {
        '4'
    } else if d == 5 {
        '5'
    } else if d == 6 {
        '6'
    } else if d == 7 {
        '7'
    } else if d == 8 {
        '8'
    } else {
        '9'
    }
}

/// Relies on `String::push`: appends exactly one character at the end of
/// the string.
#[verifier::external_body]
fn push_char(s: &mut String, c: char)
    ensures
        final(s)@ == old(s)@ + seq![c],
{
    s.push(c);
}

fn push_dec(out: &mut String, n: u64)
    ensures
        final(out)@ == old(out)@ + dec_digits(n as nat),
    decreases n,
{
    if n < 10 {
        let c = digit_char_exec(n);
        push_char(out, c);
    } else {
        push_dec(out, n / 10);
        let c = digit_char_exec(n % 10);
        push_char(out, c);
        proof {
            assert(out@ =~= old(out)@ + dec_digits(n as nat));
        }
    }
}

/// Renders an integer in decimal, exactly as its canonical textual form.
pub fn render_int(i: i32) -> (s: String)
    ensures
        s@ == int_chars(i as int),
{
    let mut out = String::new();
    if i < 0 {
        push_char(&mut out, '-');
        let mag: u64 = (-(i as i64)) as u64;
        proof {
            assert(mag as nat == (-(i as int)) as nat);
        }
        push_dec(&mut out, mag);
        proof {
            assert(out@ =~= int_chars(i as int));
        }
    } else {
        push_dec(&mut out, i as u64);
    }
    out
}

// ---------------------------------------------------------------------------
// String escaping for the canonical serialization
// ---------------------------------------------------------------------------

/// The character for one hexadecimal digit, lower case.
pub open spec fn hex_digit(d: int) -> char {
    if d < 10 {
        digit_char(d)
    } else if d == 10 {
        'a'
    } else if d == 11 {
        'b'
    } else if d == 12 {
        'c'
    } else if d == 13 {
        'd'
    } else if d == 14 {
        'e'
    } else {
        'f'
    }
}

/// How one character appears inside a serialized string field: quotes and
/// backslashes get a backslash escape, the named control characters their
/// short escapes, the remaining control characters a `\u00` hex escape,
/// and every other character stands for itself.
pub open spec fn escaped_char(c: char) -> Seq<char> {
    if c == '"' {
        seq!['\\', '"']
    } else if c == '\\' {
        seq!['\\', '\\']
    } else if c == '\u{8}' {
        seq!['\\', 'b']
    } else if c == '\t' {
        seq!['\\', 't']
    } else if c == '\n' {
        seq!['\\', 'n']
    } else if c == '\u{c}' {
        seq!['\\', 'f']
    } else if c == '\r' {
        seq!['\\', 'r']
    } else if (c as u32) < 0x20 {
        seq!['\\', 'u', '0', '0', hex_digit((c as u32 / 16) as int), hex_digit((c as u32 % 16) as int)]
    } else {
        seq![c]
    }
}

/// A whole character sequence escaped, character by character, in order.
pub open spec fn escaped(s: Seq<char>) -> Seq<char>
    decreases s.len(),
{
    if s.len() == 0 {
        Seq::empty()
    } else {
        escaped(s.drop_last()) + escaped_char(s.last())
    }
}

fn hex_digit_exec(d: u32) -> (c: char)
    requires
        d < 16,
    ensures
        c == hex_digit(d as int),
{
    if d < 10 {
        digit_char_exec(d as u64)
    } else if d == 10 {
        'a'
    } else if d == 11 {
        'b'
    } else if d == 12 {
        'c'
    } else if d == 13 {
        'd'
    } else if d == 14 {
        'e'
    } else {
        'f'
    }
}

fn push_escaped_char(out: &mut String, c: char)
    ensures
        final(out)@ == old(out)@ + escaped_char(c),
{
    if c == '"' {
        push_char(out, '\\');
        push_char(out, '"');
    } else if c == '\\' {
        push_char(out, '\\');
        push_char(out, '\\');
    } else if c == '\u{8}' {
        push_char(out, '\\');
        push_char(out, 'b');
    } else if c == '\t' {
        push_char(out, '\\');
        push_char(out, 't');
    } else if c == '\n' {
        push_char(out, '\\');
        push_char(out, 'n');
    } else if c == '\u{c}' {
        push_char(out, '\\');
        push_char(out, 'f');
    } else if c == '\r' {
        push_char(out, '\\');
        push_char(out, 'r');
    } else if (c as u32) < 0x20 {
        let code = c as u32;
        push_char(out, '\\');
        push_char(out, 'u');
        push_char(out, '0');
        push_char(out, '0');
        let hi = hex_digit_exec(code / 16);
        push_char(out, hi);
        let lo = hex_digit_exec(code % 16);
        push_char(out, lo);
    } else {
        push_char(out, c);
    }
    proof {
        assert(out@ =~= old(out)@ + escaped_char(c));
    }
}

/// Relies on `str::chars`: yields exactly the string's characters, in order.
#[verifier::external_body]
fn str_chars(s: &str) -> (v: Vec<char>)
    ensures
        v@ == s@,
{
    s.chars().collect()
}

fn append_escaped(out: &mut String, s: &str)
    ensures
        final(out)@ == old(out)@ + escaped(s@),
{
    let chars = str_chars(s);
    let n = chars.len();
    let mut idx: usize = 0;
    while idx < n
        invariant
            n == chars@.len(),
            chars@ == s@,
            idx <= n,
            out@ == old(out)@ + escaped(s@.take(idx as int)),
        decreases n - idx,
    {
        let c = chars[idx];
        push_escaped_char(out, c);
        proof {
            assert(s@.take(idx + 1 as int).drop_last() =~= s@.take(idx as int));
            assert(s@.take(idx + 1 as int).last() == s@[idx as int]);
            assert(out@ =~= old(out)@ + escaped(s@.take(idx + 1 as int)));
        }
        idx = idx + 1;
    }
    proof {
        assert(s@.take(n as int) =~= s@);
    }
}

// ---------------------------------------------------------------------------
// The canonical serialization of a record
// ---------------------------------------------------------------------------

/// The canonical string form of a record: the structured-text object with
/// the fields in declaration order, the identifier as a bare decimal, and
/// the textual fields as escaped, quoted strings.
pub open spec fn serialized(r: RecordView) -> Seq<char> {
    "{\"id\":"@ + int_chars(r.id) + ",\"name\":\""@ + escaped(r.name) + "\",\"email\":\""@
        + escaped(r.email) + "\"}"@
}

/// Serializes a record to its canonical string form. This is total: every
/// record value has a canonical form, so no serialization failure exists.
pub fn serialize_record(r: &Record) -> (s: String)
    ensures
        s@ == serialized(r@),
{
    let mut out = String::from_str("{\"id\":");
    let id_text = render_int(r.id);
    out.append(id_text.as_str());
    out.append(",\"name\":\"");
    append_escaped(&mut out, r.name.as_str());
    out.append("\",\"email\":\"");
    append_escaped(&mut out, r.email.as_str());
    out.append("\"}");
    proof {
        assert(out@ =~= serialized(r@));
    }
    out
}

} // verus!
