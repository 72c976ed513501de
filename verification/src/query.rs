//! Percent-encoding of a value that stands in the query of an address.

use vstd::prelude::*;
use vstd::utf8::encode_utf8;

verus! {

/// Specifies `String::push` of the standard library, which appends one
/// character to the end of the string. Trusted.
pub assume_specification[ String::push ](s: &mut String, c: char)
    ensures
        final(s)@ == old(s)@.push(c),
;

/// Whether a byte stands in a query as it is: a printable ASCII character
/// other than the space, `"`, `#`, `'`, `<` and `>`.
pub open spec fn query_plain(b: u8) -> bool {
    0x21 <= b <= 0x7e && b != 0x22 && b != 0x23 && b != 0x27 && b != 0x3c && b != 0x3e
}

/// The character of a hexadecimal digit, in upper case.
pub open spec fn hex_digit(d: u8) -> char {
    if d < 10 {
        ((0x30 + d) as u8) as char
    } else {
        ((0x37 + d) as u8) as char
    }
}

/// How one byte is written: as its character, or as `%` and its two
/// hexadecimal digits.
pub open spec fn escaped_byte(b: u8) -> Seq<char> {
    if query_plain(b) {
        seq![b as char]
    } else {
        seq!['%', hex_digit(b / 16), hex_digit(b % 16)]
    }
}

/// How a sequence of bytes is written, byte by byte.
pub open spec fn percent_encoded(bytes: Seq<u8>) -> Seq<char>
    decreases bytes.len(),
{
    if bytes.len() == 0 {
        Seq::empty()
    } else {
        percent_encoded(bytes.drop_last()) + escaped_byte(bytes.last())
    }
}

/// How a text is written in a query: its UTF-8 bytes, percent-encoded.
pub open spec fn query_text(s: Seq<char>) -> Seq<char> {
    percent_encoded(encode_utf8(s))
}

/// Whether a character is one that a query takes as it is.
pub open spec fn plain_char(c: char) -> bool {
    0x21 <= c as u32 <= 0x7e && c != '"' && c != '#' && c != '\'' && c != '<' && c != '>'
}

/// Whatever the bytes, what is written for them holds only characters that
/// a query takes as they are: no space, no control character and nothing
/// beyond ASCII is left in it.
pub proof fn encoded_is_plain(bytes: Seq<u8>)
    ensures
        forall|i: int|
            0 <= i < percent_encoded(bytes).len() ==> plain_char(
                #[trigger] percent_encoded(bytes)[i],
            ),
    decreases bytes.len(),
{
    if bytes.len() > 0 {
        encoded_is_plain(bytes.drop_last());
        let head = percent_encoded(bytes.drop_last());
        let tail = escaped_byte(bytes.last());
        assert forall|j: int| 0 <= j < tail.len() implies plain_char(#[trigger] tail[j]) by {
            let b = bytes.last();
            if !query_plain(b) {
                assert(b / 16 < 16 && b % 16 < 16);
            }
        }
        assert forall|i: int| 0 <= i < percent_encoded(bytes).len() implies plain_char(
            #[trigger] percent_encoded(bytes)[i],
        ) by {
            if i < head.len() {
                assert(percent_encoded(bytes)[i] == head[i]);
            } else {
                assert(percent_encoded(bytes)[i] == tail[i - head.len()]);
            }
        }
    }
}

/// Bytes that a query takes as they are stay as they are: the text written
/// for them has one character for each byte, the byte's own.
pub proof fn plain_bytes_are_kept(bytes: Seq<u8>)
    requires
        forall|i: int| 0 <= i < bytes.len() ==> query_plain(#[trigger] bytes[i]),
    ensures
        percent_encoded(bytes).len() == bytes.len(),
        forall|i: int|
            0 <= i < bytes.len() ==> (#[trigger] percent_encoded(bytes)[i]) == bytes[i] as char,
    decreases bytes.len(),
{
    if bytes.len() > 0 {
        plain_bytes_are_kept(bytes.drop_last());
        assert(query_plain(bytes[bytes.len() - 1]));
    }
}

fn is_plain(b: u8) -> (r: bool)
    ensures
        r == query_plain(b),
{
    0x21 <= b && b <= 0x7e && b != 0x22 && b != 0x23 && b != 0x27 && b != 0x3c && b != 0x3e
}

fn hex_char(d: u8) -> (r: char)
    requires
        d < 16,
    ensures
        r == hex_digit(d),
{
    if d < 10 {
        (0x30 + d) as char
    } else {
        (0x37 + d) as char
    }
}

/// Writes a text for a query: every byte of its UTF-8 form that a query
/// does not take as it is becomes `%` and two hexadecimal digits, so a space
/// is `%20` and a character beyond ASCII is one such group for each of its
/// bytes.
pub fn percent_encode(s: &str) -> (r: String)
    ensures
        r@ == query_text(s@),
{
    let bytes = s.as_bytes();
    let mut out = String::new();
    let mut i: usize = 0;
    while i < bytes.len()
        invariant
            i <= bytes.len(),
            out@ == percent_encoded(bytes@.subrange(0, i as int)),
        decreases bytes.len() - i,
    {
        let b: u8 = bytes[i];
        let ghost before = out@;
        if is_plain(b) {
            out.push(b as char);
        } else {
            out.push('%');
            out.push(hex_char(b / 16));
            out.push(hex_char(b % 16));
        }
        proof {
            let grown = bytes@.subrange(0, i + 1);
            assert(grown.drop_last() =~= bytes@.subrange(0, i as int));
            assert(grown.last() == b);
            assert(out@ =~= before + escaped_byte(b));
        }
        i = i + 1;
    }
    assert(bytes@.subrange(0, bytes.len() as int) =~= bytes@);
    out
}

} // verus!
