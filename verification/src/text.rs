//! Rendering of plain values as text: decimal integers, booleans, and path
//! segments with percent escapes.

use vstd::prelude::*;
use vstd::string::StringExecFns;
use vstd::utf8::encode_utf8;

verus! {

/// `String::push` of std: the string afterwards is the string before with
/// the character added at its end.
#[verifier::external_body]
pub(crate) fn push_char(s: &mut String, c: char)
    ensures
        final(s)@ == old(s)@.push(c),
{
    s.push(c)
}

/// The character of a decimal digit.
pub open spec fn digit_char(d: nat) -> char
    recommends
        d < 10,
{
    ((0x30 + d) as u8) as char
}

/// The decimal form of a natural number, without sign or leading zeros.
pub open spec fn decimal(n: nat) -> Seq<char>
    decreases n,
{
    if n < 10 {
        seq![digit_char(n)]
    } else {
        decimal(n / 10).push(digit_char(n % 10))
    }
}

/// The literal form of a boolean.
pub open spec fn bool_text(b: bool) -> Seq<char> {
    if b {
        "true"@
    } else {
        "false"@
    }
}

/// Renders an integer in decimal.
pub fn render_u32(n: u32) -> (s: String)
    ensures
        s@ == decimal(n as nat),
    decreases n,
{
    let mut s = if n < 10 {
        String::new()
    } else {
        render_u32(n / 10)
    };
    let d: u8 = (n % 10) as u8;
    push_char(&mut s, (0x30u8 + d) as char);
    assert(s@ =~= decimal(n as nat));
    s
}

/// Renders a boolean as `true` or `false`.
pub fn render_bool(b: bool) -> (s: String)
    ensures
        s@ == bool_text(b),
{
    if b {
        String::from_str("true")
    } else {
        String::from_str("false")
    }
}

/// Bytes that stand for themselves in a path segment: ASCII letters and
/// digits, and `-`, `.`, `_`, `~`.
pub open spec fn is_unreserved(b: u8) -> bool {
    ||| 0x30 <= b <= 0x39
    ||| 0x41 <= b <= 0x5a
    ||| 0x61 <= b <= 0x7a
    ||| b == 0x2d
    ||| b == 0x2e
    ||| b == 0x5f
    ||| b == 0x7e
}

/// The upper-case hexadecimal digit of a value below 16.
pub open spec fn hex_char(n: u8) -> char
    recommends
        n < 16,
{
    if n < 10 {
        ((0x30 + n) as u8) as char
    } else {
        ((0x37 + n) as u8) as char
    }
}

/// What one byte becomes in a path segment: itself, or `%` and two
/// hexadecimal digits.
pub open spec fn escaped_byte(b: u8) -> Seq<char> {
    if is_unreserved(b) {
        seq![b as char]
    } else {
        seq!['%', hex_char(b / 16), hex_char(b % 16)]
    }
}

/// The escaped form of a sequence of bytes, byte by byte.
pub open spec fn escaped(bytes: Seq<u8>) -> Seq<char>
    decreases bytes.len(),
{
    if bytes.len() == 0 {
        Seq::empty()
    } else {
        escaped(bytes.drop_last()) + escaped_byte(bytes.last())
    }
}

/// The escaped form of a text: that of its UTF-8 bytes.
pub open spec fn escaped_text(text: Seq<char>) -> Seq<char> {
    escaped(encode_utf8(text))
}

fn hex_digit(n: u8) -> (c: char)
    requires
        n < 16,
    ensures
        c == hex_char(n),
{
    if n < 10 {
        (0x30u8 + n) as char
    } else {
        (0x37u8 + n) as char
    }
}

fn unreserved(b: u8) -> (r: bool)
    ensures
        r == is_unreserved(b),
{
    (0x30 <= b && b <= 0x39) || (0x41 <= b && b <= 0x5a) || (0x61 <= b && b <= 0x7a) || b == 0x2d
        || b == 0x2e || b == 0x5f || b == 0x7e
}

/// Escapes a value for use as one segment of a URL path. Every byte of its
/// UTF-8 form that is not unreserved becomes a percent escape, so that the
/// value cannot add a segment, a query or a fragment to the URL.
pub fn escape_segment(value: &str) -> (s: String)
    ensures
        s@ == escaped_text(value@),
{
    let bytes = value.as_bytes();
    let mut s = String::new();
    let mut i: usize = 0;
    assert(bytes@.take(0) =~= Seq::<u8>::empty());
    while i < bytes.len()
        invariant
            i <= bytes@.len(),
            bytes@ == encode_utf8(value@),
            s@ == escaped(bytes@.take(i as int)),
        decreases bytes@.len() - i,
    {
        let b: u8 = bytes[i];
        proof {
            assert(bytes@.take(i + 1).drop_last() =~= bytes@.take(i as int));
            assert(bytes@.take(i + 1).last() == b);
        }
        if unreserved(b) {
            push_char(&mut s, b as char);
        } else {
            push_char(&mut s, '%');
            push_char(&mut s, hex_digit(b / 16));
            push_char(&mut s, hex_digit(b % 16));
        }
        assert(s@ =~= escaped(bytes@.take(i + 1)));
        i += 1;
    }
    assert(bytes@.take(i as int) =~= bytes@);
    s
}

/// Escaping the empty text gives the empty text, and escaping adds no `/`,
/// `?` or `#`: every character of an escaped text is unreserved, `%` or a
/// hexadecimal digit.
pub proof fn escaped_is_inert(bytes: Seq<u8>, i: int)
    requires
        0 <= i < escaped(bytes).len(),
    ensures
        escaped(Seq::<u8>::empty()).len() == 0,
        escaped(bytes)[i] != '/',
        escaped(bytes)[i] != '?',
        escaped(bytes)[i] != '#',
    decreases bytes.len(),
{
    if bytes.len() > 0 {
        let head = escaped(bytes.drop_last());
        if i < head.len() {
            escaped_is_inert(bytes.drop_last(), i);
        } else {
            let b = bytes.last();
            let tail = escaped_byte(b);
            assert(escaped(bytes)[i] == tail[i - head.len()]);
            assert(b / 16 < 16 && b % 16 < 16) by (bit_vector);
        }
    }
}

} // verus!
