//! Percent-encoding of URL path segments.
use vstd::prelude::*;
use vstd::utf8::{decode_utf8, encode_utf8};

verus! {

/// Whether a byte stands for itself in a path segment: a letter, a digit, `-`, `.`, `_` or `~`.
pub open spec fn is_unreserved(b: u8) -> bool {
    ||| 'A' as u8 <= b <= 'Z' as u8
    ||| 'a' as u8 <= b <= 'z' as u8
    ||| '0' as u8 <= b <= '9' as u8
    ||| b == '-' as u8
    ||| b == '.' as u8
    ||| b == '_' as u8
    ||| b == '~' as u8
}

/// The upper-case hexadecimal digit of a value below sixteen.
pub open spec fn hex_char(d: int) -> char {
    if d < 10 {
        ('0' as u8 + d) as char
    } else {
        ('A' as u8 + (d - 10)) as char
    }
}

/// The encoding of one byte: itself, or `%` and its two hexadecimal digits.
pub open spec fn encode_byte(b: u8) -> Seq<char> {
    if is_unreserved(b) {
        seq![b as char]
    } else {
        seq!['%', hex_char(b as int / 16), hex_char(b as int % 16)]
    }
}

/// The encodings of all bytes, one after the other.
pub open spec fn percent_encode(bytes: Seq<u8>) -> Seq<char>
    decreases bytes.len(),
{
    if bytes.len() == 0 {
        seq![]
    } else {
        encode_byte(bytes[0]) + percent_encode(bytes.drop_first())
    }
}

/// The encoding of a text: that of its UTF-8 bytes.
pub open spec fn encoded_segment(text: Seq<char>) -> Seq<char> {
    percent_encode(encode_utf8(text))
}

/// The value of an upper-case hexadecimal digit.
pub open spec fn hex_value(c: char) -> Option<int> {
    if '0' <= c <= '9' {
        Some(c as int - '0' as int)
    } else if 'A' <= c <= 'F' {
        Some(c as int - 'A' as int + 10)
    } else {
        None
    }
}

/// The bytes that a percent-encoded text stands for, or `None` where it is not one.
pub open spec fn percent_decode(s: Seq<char>) -> Option<Seq<u8>>
    decreases s.len(),
{
    if s.len() == 0 {
        Some(seq![])
    } else if s[0] == '%' {
        if s.len() < 3 {
            None
        } else {
            match (hex_value(s[1]), hex_value(s[2]), percent_decode(s.skip(3))) {
                (Some(high), Some(low), Some(rest)) => Some(
                    seq![(16 * high + low) as u8] + rest,
                ),
                _ => None,
            }
        }
    } else if s[0] as u32 <= 0x7f {
        match percent_decode(s.skip(1)) {
            Some(rest) => Some(seq![s[0] as u8] + rest),
            None => None,
        }
    } else {
        None
    }
}

/// The hexadecimal digit of `d`.
fn hex_digit(d: u8) -> (res: char)
    requires
        d < 16,
    ensures
        res == hex_char(d as int),
{
    if d < 10 {
        (48u8 + d) as char
    } else {
        (65u8 + (d - 10)) as char
    }
}

/// Whether `b` stands for itself.
fn unreserved(b: u8) -> (res: bool)
    ensures
        res == is_unreserved(b),
{
    let c: char = b as char;
    ('A' <= c && c <= 'Z') || ('a' <= c && c <= 'z') || ('0' <= c && c <= '9') || c == '-' || c
        == '.' || c == '_' || c == '~'
}

/// Encodes a text as one segment of a URL path.
pub fn encode_path_segment(input: &str) -> (res: String)
    ensures
        res@ == encoded_segment(input@),
        stands_for(res@, input@),
{
    proof {
        encoding_stands_for_its_text(input@);
    }
    let bytes = input.as_bytes();
    let mut encoded = String::new();
    let mut i: usize = 0;
    assert(bytes@.skip(0) =~= bytes@);
    while i < bytes.len()
        invariant
            0 <= i <= bytes@.len(),
            bytes@ == encode_utf8(input@),
            encoded@ + percent_encode(bytes@.skip(i as int)) == percent_encode(bytes@),
        decreases bytes@.len() - i,
    {
        let b: u8 = bytes[i];
        let ghost before = encoded@;
        if unreserved(b) {
            encoded.push(b as char);
        } else {
            encoded.push('%');
            encoded.push(hex_digit(b / 16));
            encoded.push(hex_digit(b % 16));
        }
        proof {
            let rest = bytes@.skip(i as int);
            assert(rest[0] == b);
            assert(rest.drop_first() =~= bytes@.skip(i + 1));
            assert(encoded@ =~= before + encode_byte(b));
            assert(before + (encode_byte(b) + percent_encode(bytes@.skip(i + 1))) =~= encoded@
                + percent_encode(bytes@.skip(i + 1)));
        }
        i = i + 1;
    }
    assert(bytes@.skip(i as int) =~= seq![]);
    assert(encoded@ + percent_encode(bytes@.skip(i as int)) =~= encoded@);
    encoded
}

/// An encoded byte string decodes to itself.
pub proof fn decode_undoes_encode(bytes: Seq<u8>)
    ensures
        percent_decode(percent_encode(bytes)) == Some(bytes),
    decreases bytes.len(),
{
    if bytes.len() == 0 {
    } else {
        let b = bytes[0];
        let rest = bytes.drop_first();
        let s = percent_encode(bytes);
        decode_undoes_encode(rest);
        assert(seq![b] + rest =~= bytes);
        if is_unreserved(b) {
            assert(s[0] == b as char);
            assert(s.skip(1) =~= percent_encode(rest));
        } else {
            assert(s[0] == '%' && s[1] == hex_char(b as int / 16) && s[2] == hex_char(
                b as int % 16,
            ));
            assert(s.skip(3) =~= percent_encode(rest));
            lemma_hex_value(b as int / 16);
            lemma_hex_value(b as int % 16);
            assert(16 * (b as int / 16) + b as int % 16 == b);
        }
    }
}

proof fn lemma_hex_value(d: int)
    requires
        0 <= d < 16,
    ensures
        hex_value(hex_char(d)) == Some(d),
{
}

/// Different texts have different encodings.
pub proof fn encoding_is_injective(a: Seq<char>, b: Seq<char>)
    requires
        encoded_segment(a) == encoded_segment(b),
    ensures
        a == b,
{
    decode_undoes_encode(encode_utf8(a));
    decode_undoes_encode(encode_utf8(b));
    vstd::utf8::encode_utf8_decode_utf8(a);
    vstd::utf8::encode_utf8_decode_utf8(b);
    assert(decode_utf8(encode_utf8(a)) == a);
}

/// An encoded segment holds unreserved characters and `%` only. In particular it never holds one
/// of the URL delimiters `/`, `?`, `#`, `@` and `:`.
pub proof fn encoding_stays_in_the_segment(text: Seq<char>, i: int)
    requires
        0 <= i < encoded_segment(text).len(),
    ensures
        ({
            let c = encoded_segment(text)[i];
            c == '%' || (c as u32 <= 0x7f && is_unreserved(c as u8))
        }),
{
    lemma_encode_charset(encode_utf8(text), i);
}

proof fn lemma_encode_charset(bytes: Seq<u8>, i: int)
    requires
        0 <= i < percent_encode(bytes).len(),
    ensures
        ({
            let c = percent_encode(bytes)[i];
            c == '%' || (c as u32 <= 0x7f && is_unreserved(c as u8))
        }),
    decreases bytes.len(),
{
    let head = encode_byte(bytes[0]);
    if i >= head.len() {
        lemma_encode_charset(bytes.drop_first(), i - head.len());
    }
}

/// The characters that an encoded segment is made of.
pub open spec fn is_segment_char(c: char) -> bool {
    ||| 'a' <= c <= 'z'
    ||| 'A' <= c <= 'Z'
    ||| '0' <= c <= '9'
    ||| c == '-'
    ||| c == '.'
    ||| c == '_'
    ||| c == '~'
    ||| c == '%'
}

/// Whether a segment stands for a text: it holds letters, digits, `-`, `.`, `_`, `~` and `%` only,
/// and the bytes that it decodes to are those of the text.
pub open spec fn stands_for(segment: Seq<char>, text: Seq<char>) -> bool {
    &&& percent_decode(segment) == Some(encode_utf8(text))
    &&& forall|i: int| 0 <= i < segment.len() ==> is_segment_char(#[trigger] segment[i])
}

/// The encoding of a text stands for the text.
pub proof fn encoding_stands_for_its_text(text: Seq<char>)
    ensures
        stands_for(encoded_segment(text), text),
{
    decode_undoes_encode(encode_utf8(text));
    lemma_segment_chars(encode_utf8(text));
}

proof fn lemma_segment_chars(bytes: Seq<u8>)
    ensures
        forall|i: int|
            0 <= i < percent_encode(bytes).len() ==> is_segment_char(
                #[trigger] percent_encode(bytes)[i],
            ),
    decreases bytes.len(),
{
    if bytes.len() > 0 {
        let head = encode_byte(bytes[0]);
        let rest = percent_encode(bytes.drop_first());
        lemma_segment_chars(bytes.drop_first());
        assert forall|i: int| 0 <= i < percent_encode(bytes).len() implies is_segment_char(
            #[trigger] percent_encode(bytes)[i],
        ) by {
            if i < head.len() {
                assert(percent_encode(bytes)[i] == head[i]);
            } else {
                assert(percent_encode(bytes)[i] == rest[i - head.len()]);
            }
        }
    }
}

/// The encoding goes byte by byte: that of two byte strings, one after the other, is theirs, one
/// after the other.
pub proof fn encoding_goes_byte_by_byte(a: Seq<u8>, b: Seq<u8>)
    ensures
        percent_encode(a + b) == percent_encode(a) + percent_encode(b),
    decreases a.len(),
{
    if a.len() == 0 {
        assert(a + b =~= b);
        assert(percent_encode(a) + percent_encode(b) =~= percent_encode(b));
    } else {
        assert((a + b)[0] == a[0]);
        assert((a + b).drop_first() =~= a.drop_first() + b);
        encoding_goes_byte_by_byte(a.drop_first(), b);
        assert(percent_encode(a + b) =~= percent_encode(a) + percent_encode(b));
    }
}

/// ASCII letters and digits, `-`, `.`, `_` and `~` stand for themselves; any other byte is `%` and
/// its two upper-case hexadecimal digits.
pub proof fn each_byte_has_one_encoding(b: u8)
    ensures
        ({
            let plain = {
                ||| 0x41 <= b <= 0x5a
                ||| 0x61 <= b <= 0x7a
                ||| 0x30 <= b <= 0x39
                ||| b == 0x2d
                ||| b == 0x2e
                ||| b == 0x5f
                ||| b == 0x7e
            };
            &&& plain ==> percent_encode(seq![b]) == seq![b as char]
            &&& !plain ==> percent_encode(seq![b]) == seq![
                '%',
                "0123456789ABCDEF"@[b as int / 16],
                "0123456789ABCDEF"@[b as int % 16],
            ]
        }),
{
    reveal_strlit("0123456789ABCDEF");
    reveal_with_fuel(percent_encode, 2);
    assert(seq![b].drop_first() =~= seq![]);
    assert(percent_encode(seq![b]) =~= encode_byte(b));
    assert forall|d: int| 0 <= d < 16 implies #[trigger] "0123456789ABCDEF"@[d] == hex_char(d) by {
        assert(d == 0 || d == 1 || d == 2 || d == 3 || d == 4 || d == 5 || d == 6 || d == 7 || d
            == 8 || d == 9 || d == 10 || d == 11 || d == 12 || d == 13 || d == 14 || d == 15);
    }
}

} // verus!
