//! The wire format of the response envelope:
//! `{"response":{"uid":...,"success":...}}`, with a `"status"` object exactly
//! when the response carries error detail. The encoder is specified character
//! by character, JSON string escaping and decimal rendering of the status code
//! included, so a test can hold the output to the exact expected text.

use vstd::prelude::*;
use vstd::string::StrSliceExecFns;
use vstd::string::StringExecFns;
use crate::model::{ChallengeResponse, ResponseView, StatusView};

verus! {

/// Relies on std's `String::push`: appends the given character to the end of
/// the string.
#[verifier::external_body]
fn push_char(s: &mut String, c: char)
    ensures
        final(s)@ == old(s)@.push(c),
{
    s.push(c);
}

/// The lower-case hexadecimal digit for a value below 16.
pub open spec fn hex_digit(n: int) -> char {
    if n == 0 {
        '0'
    } else if n == 1 {
        '1'
    } else if n == 2 {
        '2'
    } else if n == 3 {
        '3'
    } else if n == 4 {
        '4'
    } else if n == 5 {
        '5'
    } else if n == 6 {
        '6'
    } else if n == 7 {
        '7'
    } else if n == 8 {
        '8'
    } else if n == 9 {
        '9'
    } else if n == 10 {
        'a'
    } else if n == 11 {
        'b'
    } else if n == 12 {
        'c'
    } else if n == 13 {
        'd'
    } else if n == 14 {
        'e'
    } else {
        'f'
    }
}

fn hex_digit_char(n: u32) -> (c: char)
    requires
        n < 16,
    ensures
        c == hex_digit(n as int),
{
    if n == 0 {
        '0'
    } else if n == 1 {
        '1'
    } else if n == 2 {
        '2'
    } else if n == 3 {
        '3'
    } else if n == 4 {
        '4'
    } else if n == 5 {
        '5'
    } else if n == 6 {
        '6'
    } else if n == 7 {
        '7'
    } else if n == 8 {
        '8'
    } else if n == 9 {
        '9'
    } else if n == 10 {
        'a'
    } else if n == 11 {
        'b'
    } else if n == 12 {
        'c'
    } else if n == 13 {
        'd'
    } else if n == 14 {
        'e'
    } else {
        'f'
    }
}

/// How one character appears inside a JSON string literal: the two-character
/// shorthands for the quote, the backslash and the common control characters,
/// `\u00..` for the remaining control characters, and the character itself
/// otherwise.
pub open spec fn escaped_char(c: char) -> Seq<char> {
    if c == '"' {
        "\\\""@
    } else if c == '\\' {
        "\\\\"@
    } else if c == '\n' {
        "\\n"@
    } else if c == '\r' {
        "\\r"@
    } else if c == '\t' {
        "\\t"@
    } else if c == '\u{8}' {
        "\\b"@
    } else if c == '\u{c}' {
        "\\f"@
    } else if (c as u32) < 0x20 {
        "\\u00"@ + seq![hex_digit(c as u32 as int / 16), hex_digit(c as u32 as int % 16)]
    } else {
        seq![c]
    }
}

/// A whole string as it appears inside a JSON string literal.
pub open spec fn escape_seq(s: Seq<char>) -> Seq<char>
    decreases s.len(),
{
    if s.len() == 0 {
        Seq::<char>::empty()
    } else {
        escape_seq(s.drop_last()) + escaped_char(s.last())
    }
}

fn append_escaped_char(out: &mut String, c: char)
    ensures
        final(out)@ == old(out)@ + escaped_char(c),
{
    if c == '"' {
        out.append("\\\"");
    } else if c == '\\' {
        out.append("\\\\");
    } else if c == '\n' {
        out.append("\\n");
    } else if c == '\r' {
        out.append("\\r");
    } else if c == '\t' {
        out.append("\\t");
    } else if c == '\u{8}' {
        out.append("\\b");
    } else if c == '\u{c}' {
        out.append("\\f");
    } else if (c as u32) < 0x20 {
        let n: u32 = c as u32;
        assert(n >> 4u32 == n / 16 && n & 0xfu32 == n % 16) by (bit_vector);
        assert(n / 16 < 16 && n % 16 < 16) by (bit_vector)
            requires
                n < 0x20,
        ;
        out.append("\\u00");
        push_char(out, hex_digit_char(n >> 4u32));
        push_char(out, hex_digit_char(n & 0xfu32));
        assert(out@ =~= old(out)@ + escaped_char(c));
    } else {
        push_char(out, c);
        assert(out@ =~= old(out)@ + escaped_char(c));
    }
}

fn append_escaped(out: &mut String, s: &str)
    ensures
        final(out)@ == old(out)@ + escape_seq(s@),
{
    let len: usize = s.unicode_len();
    let mut i: usize = 0;
    while i < len
        invariant
            len == s@.len(),
            i <= len,
            out@ == old(out)@ + escape_seq(s@.take(i as int)),
        decreases len - i,
    {
        let c = s.get_char(i);
        append_escaped_char(out, c);
        proof {
            assert(s@.take(i as int + 1).drop_last() =~= s@.take(i as int));
            assert(s@.take(i as int + 1).last() == c);
            assert(out@ =~= old(out)@ + escape_seq(s@.take(i as int + 1)));
        }
        i += 1;
    }
    proof {
        assert(s@.take(len as int) =~= s@);
    }
}

/// The decimal digit for a value below 10.
pub open spec fn dec_digit(n: int) -> char {
    if n == 0 {
        '0'
    } else if n == 1 {
        '1'
    } else if n == 2 {
        '2'
    } else if n == 3 {
        '3'
    } else if n == 4 {
        '4'
    } else if n == 5 {
        '5'
    } else if n == 6 {
        '6'
    } else if n == 7 {
        '7'
    } else if n == 8 {
        '8'
    } else {
        '9'
    }
}

/// The decimal rendering of a non-negative number, most significant digit
/// first, with no leading zero except for zero itself.
pub open spec fn dec_seq(n: nat) -> Seq<char>
    decreases n,
{
    if n < 10 {
        seq![dec_digit(n as int)]
    } else {
        dec_seq(n / 10) + seq![dec_digit((n % 10) as int)]
    }
}

/// The decimal rendering of an integer: a minus sign before the magnitude for
/// a negative one.
pub open spec fn int_seq(i: int) -> Seq<char> {
    if i < 0 {
        seq!['-'] + dec_seq((-i) as nat)
    } else {
        dec_seq(i as nat)
    }
}

fn dec_digit_char(n: u32) -> (c: char)
    requires
        n < 10,
    ensures
        c == dec_digit(n as int),
{
    if n == 0 {
        '0'
    } else if n == 1 {
        '1'
    } else if n == 2 {
        '2'
    } else if n == 3 {
        '3'
    } else if n == 4 {
        '4'
    } else if n == 5 {
        '5'
    } else if n == 6 {
        '6'
    } else if n == 7 {
        '7'
    } else if n == 8 {
        '8'
    } else {
        '9'
    }
}

fn append_u32_decimal(out: &mut String, n: u32)
    ensures
        final(out)@ == old(out)@ + dec_seq(n as nat),
    decreases n,
{
    if n < 10 {
        push_char(out, dec_digit_char(n));
        assert(out@ =~= old(out)@ + dec_seq(n as nat));
    } else {
        assert(n / 10 < n && n / 10 >= 1) by (nonlinear_arith)
            requires
                n >= 10,
        ;
        append_u32_decimal(out, n / 10);
        push_char(out, dec_digit_char(n % 10));
        assert(out@ =~= old(out)@ + dec_seq(n as nat));
    }
}

fn append_i32_decimal(out: &mut String, n: i32)
    ensures
        final(out)@ == old(out)@ + int_seq(n as int),
{
    if n < 0 {
        push_char(out, '-');
        let wide: i64 = n as i64;
        let magnitude: u32 = (-wide) as u32;
        assert(magnitude as nat == (-(n as int)) as nat);
        append_u32_decimal(out, magnitude);
        assert(out@ =~= old(out)@ + int_seq(n as int));
    } else {
        append_u32_decimal(out, n as u32);
    }
}

/// The `"status"` member carried by a failed response, leading comma included.
pub open spec fn status_json(st: StatusView) -> Seq<char> {
    ",\"status\":{\"message\":\""@ + escape_seq(st.message) + "\",\"reason\":\""@ + escape_seq(
        st.reason,
    ) + "\",\"code\":"@ + int_seq(st.code) + "}"@
}

/// The whole response envelope on the wire.
pub open spec fn response_json(r: ResponseView) -> Seq<char> {
    "{\"response\":{\"uid\":\""@ + escape_seq(r.uid) + "\",\"success\":"@ + (if r.success {
        "true"@
    } else {
        "false"@
    }) + (match r.status {
        Some(st) => status_json(st),
        None => Seq::<char>::empty(),
    }) + "}}"@
}

/// Encode a response for the wire. Every response, success or failure, is
/// carried this way with HTTP status 200: errors live in the body.
pub fn response_to_json(r: &ChallengeResponse) -> (out: String)
    ensures
        out@ == response_json(r@),
{
    let mut out = String::new();
    out.append("{\"response\":{\"uid\":\"");
    append_escaped(&mut out, r.uid.as_str());
    out.append("\",\"success\":");
    if r.success {
        out.append("true");
    } else {
        out.append("false");
    }
    match &r.status {
        Some(st) => {
            out.append(",\"status\":{\"message\":\"");
            append_escaped(&mut out, st.message.as_str());
            out.append("\",\"reason\":\"");
            append_escaped(&mut out, st.reason.as_str());
            out.append("\",\"code\":");
            append_i32_decimal(&mut out, st.code);
            out.append("}");
        },
        None => {},
    }
    out.append("}}");
    assert(out@ =~= response_json(r@));
    out
}

} // verus!
