//! The two encodings of text in a request target: the percent-encoding of a
//! text that becomes one segment of a path, and the form encoding of the
//! parameters that become a query.

use vstd::prelude::*;
use vstd::utf8::*;
use crate::trusted::{percent_encode_byte, push_char};

verus! {

/// The character of a hexadecimal digit, letters in upper case.
pub open spec fn hex_upper(d: u8) -> char
    recommends
        d < 16,
{
    if d < 10 {
        ((48 + d) as u8) as char
    } else {
        ((55 + d) as u8) as char
    }
}

/// The percent-encoding of one byte: a percent sign and two hexadecimal digits.
pub open spec fn escape(byte: u8) -> Seq<char> {
    seq!['%', hex_upper(byte / 16), hex_upper(byte % 16)]
}

/// The bytes that are escaped in a path segment: the control characters,
/// every byte outside ASCII, and space, `"`, `/`, `?`, `` ` `` and `'`.
pub open spec fn escaped_in_segment(byte: u8) -> bool {
    ||| byte < 0x20
    ||| byte >= 0x7f
    ||| byte == 0x20
    ||| byte == 0x22
    ||| byte == 0x27
    ||| byte == 0x2f
    ||| byte == 0x3f
    ||| byte == 0x60
}

/// What one byte of the text contributes to the segment.
pub open spec fn segment_byte(byte: u8) -> Seq<char> {
    if escaped_in_segment(byte) {
        escape(byte)
    } else {
        seq![byte as char]
    }
}

/// The encoding of a sequence of bytes, byte by byte.
pub open spec fn segment_bytes(bytes: Seq<u8>) -> Seq<char>
    decreases bytes.len(),
{
    if bytes.len() == 0 {
        Seq::empty()
    } else {
        segment_bytes(bytes.drop_last()) + segment_byte(bytes.last())
    }
}

/// The path segment that stands for `text`: the percent-encoding of its
/// UTF-8 bytes.
pub open spec fn path_segment(text: Seq<char>) -> Seq<char> {
    segment_bytes(encode_utf8(text))
}

/// A character that may stand in a path segment as it is: printable ASCII
/// other than the six that are escaped.
pub open spec fn segment_safe(c: char) -> bool {
    &&& 0x20 < c as u32
    &&& (c as u32) < 0x7f
    &&& c != '"'
    &&& c != '\''
    &&& c != '/'
    &&& c != '?'
    &&& c != '`'
}

/// What one byte contributes holds safe characters only.
pub proof fn lemma_segment_byte_safe(byte: u8)
    ensures
        1 <= segment_byte(byte).len() <= 3,
        forall|i: int|
            0 <= i < segment_byte(byte).len() ==> segment_safe(#[trigger] segment_byte(byte)[i]),
{
    let hi: u8 = byte / 16;
    let lo: u8 = byte % 16;
    assert(segment_safe('%'));
    assert(segment_safe(hex_upper(hi)));
    assert(segment_safe(hex_upper(lo)));
    if escaped_in_segment(byte) {
        assert(segment_byte(byte)[0] == '%');
        assert(segment_byte(byte)[1] == hex_upper(hi));
        assert(segment_byte(byte)[2] == hex_upper(lo));
    } else {
        assert(segment_byte(byte)[0] == byte as char);
        assert(segment_safe(byte as char));
    }
}

/// An encoded byte sequence holds safe characters only.
pub proof fn lemma_segment_bytes_safe(bytes: Seq<u8>)
    ensures
        forall|i: int|
            0 <= i < segment_bytes(bytes).len() ==> segment_safe(#[trigger] segment_bytes(bytes)[i]),
    decreases bytes.len(),
{
    if bytes.len() > 0 {
        lemma_segment_bytes_safe(bytes.drop_last());
        lemma_segment_byte_safe(bytes.last());
        let head = segment_bytes(bytes.drop_last());
        let tail = segment_byte(bytes.last());
        assert forall|i: int| 0 <= i < segment_bytes(bytes).len() implies segment_safe(
            #[trigger] segment_bytes(bytes)[i],
        ) by {
            if i < head.len() {
                assert(segment_bytes(bytes)[i] == head[i]);
            } else {
                assert(segment_bytes(bytes)[i] == tail[i - head.len()]);
            }
        }
    }
}

/// An encoded path segment holds safe characters only: no space and no
/// quote, no `/` that would start another segment and no `?` that would start
/// a query. A `#` is not escaped and counts as safe here, although a URI ends
/// its path at one.
pub proof fn lemma_path_segment_safe(text: Seq<char>)
    ensures
        forall|i: int|
            0 <= i < path_segment(text).len() ==> segment_safe(#[trigger] path_segment(text)[i]),
{
    lemma_segment_bytes_safe(encode_utf8(text));
}

/// A space is written as `%20`, never as `+` and never as it is.
pub proof fn lemma_space_is_percent_twenty()
    ensures
        segment_byte(0x20) == seq!['%', '2', '0'],
{
    assert(segment_byte(0x20) =~= seq!['%', '2', '0']);
}

/// The value of a hexadecimal digit, in either case.
pub open spec fn hex_value(c: char) -> Option<u8> {
    if '0' <= c <= '9' {
        Some((c as u8 - 48) as u8)
    } else if 'A' <= c <= 'F' {
        Some((c as u8 - 55) as u8)
    } else if 'a' <= c <= 'f' {
        Some((c as u8 - 87) as u8)
    } else {
        None
    }
}

/// Percent-decoding, read from the left: a percent sign before two
/// hexadecimal digits stands for the byte with those digits, and any other
/// character stands for itself.
pub open spec fn percent_decoded(s: Seq<char>) -> Seq<u8>
    decreases s.len(),
{
    if s.len() == 0 {
        Seq::empty()
    } else if s[0] == '%' && s.len() >= 3 && hex_value(s[1]) is Some && hex_value(s[2]) is Some {
        seq![(16 * hex_value(s[1])->0 + hex_value(s[2])->0) as u8] + percent_decoded(
            s.subrange(3, s.len() as int),
        )
    } else {
        seq![s[0] as u8] + percent_decoded(s.drop_first())
    }
}

/// Whether a byte is an ASCII hexadecimal digit, in either case.
pub open spec fn is_hex_byte(byte: u8) -> bool {
    ||| 0x30 <= byte <= 0x39
    ||| 0x41 <= byte <= 0x46
    ||| 0x61 <= byte <= 0x66
}

/// Position `i` holds a percent sign before two hexadecimal digits: the
/// bytes spell an escape there, which the encoding leaves as it is.
pub open spec fn spells_escape(bytes: Seq<u8>, i: int) -> bool {
    &&& 0 <= i
    &&& i + 2 < bytes.len()
    &&& bytes[i] == 0x25
    &&& is_hex_byte(bytes[i + 1])
    &&& is_hex_byte(bytes[i + 2])
}

/// No position of the bytes spells an escape.
pub open spec fn free_of_escapes(bytes: Seq<u8>) -> bool {
    forall|i: int| !spells_escape(bytes, i)
}

/// The encoding of two byte sequences in a row is the one encoding after the other.
pub proof fn lemma_segment_bytes_concat(a: Seq<u8>, b: Seq<u8>)
    ensures
        segment_bytes(a + b) == segment_bytes(a) + segment_bytes(b),
    decreases b.len(),
{
    if b.len() == 0 {
        assert(a + b =~= a);
        assert(segment_bytes(a) + segment_bytes(b) =~= segment_bytes(a));
    } else {
        lemma_segment_bytes_concat(a, b.drop_last());
        assert((a + b).drop_last() =~= a + b.drop_last());
        assert((a + b).last() == b.last());
        assert(segment_bytes(a + b) =~= segment_bytes(a) + segment_bytes(b));
    }
}

/// The encoding of a byte sequence is what its first byte contributes, then
/// the encoding of the rest.
pub proof fn lemma_segment_bytes_first(bytes: Seq<u8>)
    requires
        bytes.len() > 0,
    ensures
        segment_bytes(bytes) == segment_byte(bytes[0]) + segment_bytes(bytes.drop_first()),
{
    let head = seq![bytes[0]];
    assert(bytes =~= head + bytes.drop_first());
    lemma_segment_bytes_concat(head, bytes.drop_first());
    assert(head.drop_last() =~= Seq::<u8>::empty());
    assert(segment_bytes(head.drop_last()) =~= Seq::<char>::empty());
    assert(head.last() == bytes[0]);
    assert(segment_bytes(head) =~= segment_byte(bytes[0]));
}

/// The two digits of an escape give the byte back.
pub proof fn lemma_escape_decodes(byte: u8)
    ensures
        hex_value(hex_upper(byte / 16)) == Some((byte / 16) as u8),
        hex_value(hex_upper(byte % 16)) == Some((byte % 16) as u8),
        16 * (byte / 16) + byte % 16 == byte,
{
}

/// Percent-decoding undoes the encoding of a path segment, byte for byte,
/// where the bytes spell no escape of their own. (Where they do, as in the
/// three bytes of `%41`, the encoding leaves them as they are and decoding
/// reads them as one byte.)
pub proof fn lemma_segment_decodes(bytes: Seq<u8>)
    requires
        free_of_escapes(bytes),
    ensures
        percent_decoded(segment_bytes(bytes)) == bytes,
    decreases bytes.len(),
{
    if bytes.len() == 0 {
        assert(percent_decoded(segment_bytes(bytes)) =~= bytes);
    } else {
        let b = bytes[0];
        let rest = bytes.drop_first();
        let s = segment_bytes(bytes);
        let t = segment_bytes(rest);
        lemma_segment_bytes_first(bytes);
        assert forall|i: int| !spells_escape(rest, i) by {
            if spells_escape(rest, i) {
                assert(spells_escape(bytes, i + 1));
            }
        }
        lemma_segment_decodes(rest);
        if escaped_in_segment(b) {
            lemma_escape_decodes(b);
            assert(s[0] == '%');
            assert(s[1] == hex_upper(b / 16));
            assert(s[2] == hex_upper(b % 16));
            assert(s.subrange(3, s.len() as int) =~= t);
            assert(percent_decoded(s) =~= seq![b] + percent_decoded(t));
        } else {
            assert(s[0] == b as char);
            assert(s.drop_first() =~= t);
            if b == 0x25 {
                if rest.len() > 0 {
                    lemma_segment_bytes_first(rest);
                    let r0 = rest[0];
                    assert(bytes[1] == r0);
                    if escaped_in_segment(r0) {
                        assert(s[1] == '%');
                    } else {
                        assert(s[1] == r0 as char);
                        if is_hex_byte(r0) && rest.len() > 1 {
                            let rest2 = rest.drop_first();
                            lemma_segment_bytes_first(rest2);
                            let r1 = rest2[0];
                            assert(bytes[2] == r1);
                            if escaped_in_segment(r1) {
                                assert(s[2] == '%');
                            } else {
                                assert(s[2] == r1 as char);
                                assert(!is_hex_byte(r1)) by {
                                    if is_hex_byte(r1) {
                                        assert(spells_escape(bytes, 0));
                                    }
                                }
                            }
                        } else if is_hex_byte(r0) {
                            assert(segment_bytes(rest.drop_first()) =~= Seq::<char>::empty());
                            assert(s.len() == 2);
                        }
                    }
                } else {
                    assert(s.len() == 1);
                }
            }
            assert(percent_decoded(s) =~= seq![b] + percent_decoded(t));
        }
        assert(seq![b] + rest =~= bytes);
    }
}

/// Decoding an encoded title gives the title back, where the UTF-8 bytes of
/// the title spell no escape of their own.
pub proof fn lemma_path_segment_round_trip(text: Seq<char>)
    requires
        free_of_escapes(encode_utf8(text)),
    ensures
        decode_utf8(percent_decoded(path_segment(text))) == text,
{
    lemma_segment_decodes(encode_utf8(text));
    encode_utf8_decode_utf8(text);
}

/// The bytes that the form encoding leaves as they are: ASCII letters and
/// digits, and `*`, `-`, `.` and `_`.
pub open spec fn form_unreserved(byte: u8) -> bool {
    ||| 0x30 <= byte <= 0x39
    ||| 0x41 <= byte <= 0x5a
    ||| 0x61 <= byte <= 0x7a
    ||| byte == 0x2a
    ||| byte == 0x2d
    ||| byte == 0x2e
    ||| byte == 0x5f
}

/// What one byte contributes to a form-encoded text: itself where it is
/// unreserved, a plus sign where it is a space, else its percent-encoding.
pub open spec fn form_byte(byte: u8) -> Seq<char> {
    if form_unreserved(byte) {
        seq![byte as char]
    } else if byte == 0x20 {
        seq!['+']
    } else {
        escape(byte)
    }
}

/// The form encoding of a sequence of bytes, byte by byte.
pub open spec fn form_bytes(bytes: Seq<u8>) -> Seq<char>
    decreases bytes.len(),
{
    if bytes.len() == 0 {
        Seq::empty()
    } else {
        form_bytes(bytes.drop_last()) + form_byte(bytes.last())
    }
}

/// The form encoding of a name or a value: that of its UTF-8 bytes.
pub open spec fn form_component(text: Seq<char>) -> Seq<char> {
    form_bytes(encode_utf8(text))
}

/// The form encoding of one parameter: name, equals sign, value.
pub open spec fn form_pair(pair: (Seq<char>, Seq<char>)) -> Seq<char> {
    form_component(pair.0) + seq!['='] + form_component(pair.1)
}

/// The `application/x-www-form-urlencoded` text of a list of parameters:
/// the encoded parameters in order, with an ampersand between each two.
pub open spec fn form_urlencoded(pairs: Seq<(Seq<char>, Seq<char>)>) -> Seq<char>
    decreases pairs.len(),
{
    if pairs.len() == 0 {
        Seq::empty()
    } else if pairs.len() == 1 {
        form_pair(pairs[0])
    } else {
        form_urlencoded(pairs.drop_last()) + seq!['&'] + form_pair(pairs.last())
    }
}

/// Whether a byte is escaped in a path segment.
pub fn is_escaped_in_segment(byte: u8) -> (res: bool)
    ensures
        res == escaped_in_segment(byte),
{
    byte < 0x20 || byte >= 0x7f || byte == 0x20 || byte == 0x22 || byte == 0x27 || byte == 0x2f
        || byte == 0x3f || byte == 0x60
}

/// Encodes `text` as one segment of a path.
pub fn encode_path_segment(text: &str) -> (res: String)
    ensures
        res@ == path_segment(text@),
{
    let bytes = text.as_bytes();
    let mut out = String::new();
    let mut i: usize = 0;
    while i < bytes.len()
        invariant
            i <= bytes.len(),
            out@ == segment_bytes(bytes@.subrange(0, i as int)),
        decreases bytes.len() - i,
    {
        let b: u8 = bytes[i];
        proof {
            assert(bytes@.subrange(0, i + 1).drop_last() =~= bytes@.subrange(0, i as int));
        }
        if is_escaped_in_segment(b) {
            out.append(percent_encode_byte(b));
        } else {
            push_char(&mut out, b as char);
        }
        i = i + 1;
    }
    assert(bytes@.subrange(0, i as int) =~= bytes@);
    out
}

} // verus!
