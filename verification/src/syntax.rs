//! The character classes of HTTP that decide whether a verb, a header name or
//! a header value is acceptable, over characters and over UTF-8 bytes.
use vstd::prelude::*;
use vstd::utf8::{
    char_is_scalar, encode_scalar, encode_utf8, has_width_1_encoding, has_width_2_encoding,
    has_width_3_encoding, is_ascii_chars, is_ascii_chars_encode_utf8,
};

verus! {

/// The longest header name, in bytes.
pub const MAX_HEADER_NAME_LEN: usize = 65535;

/// Whether `c` is a `tchar`: a letter, a digit, or one of
/// ``! # $ % & ' * + - . ^ _ ` | ~``.
pub open spec fn is_tchar(c: char) -> bool {
    ||| '0' <= c <= '9'
    ||| 'A' <= c <= 'Z'
    ||| 'a' <= c <= 'z'
    ||| c == '!' || c == '#' || c == '$' || c == '%' || c == '&' || c == '\'' || c == '*'
    ||| c == '+' || c == '-' || c == '.' || c == '^' || c == '_' || c == '`' || c == '|'
    ||| c == '~'
}

/// Whether `c` may stand in a header value: a tab, or anything from the space
/// upwards but DEL.
pub open spec fn is_field_char(c: char) -> bool {
    c == '\t' || (' ' <= c && c != '\u{7f}')
}

/// `c` with an upper-case ASCII letter replaced by its lower-case form.
pub open spec fn lower_char(c: char) -> char {
    if 'A' <= c <= 'Z' {
        ((c as u32) + 32) as char
    } else {
        c
    }
}

/// Whether `b`, read as an ASCII character, is a `tchar`.
pub open spec fn is_tchar_byte(b: u8) -> bool {
    is_tchar(b as char)
}

/// Whether the byte `b` may stand in a header value: 9, or 32 to 255 but 127.
pub open spec fn is_field_byte(b: u8) -> bool {
    is_field_char(b as char)
}

/// `b` with an upper-case ASCII letter replaced by its lower-case form.
pub open spec fn lower_byte(b: u8) -> u8 {
    lower_char(b as char) as u8
}

/// A token: one or more `tchar`s.
pub open spec fn is_token(s: Seq<char>) -> bool {
    &&& s.len() >= 1
    &&& forall|i: int| 0 <= i < s.len() ==> is_tchar(#[trigger] s[i])
}

/// A token, as bytes.
pub open spec fn is_token_bytes(s: Seq<u8>) -> bool {
    &&& s.len() >= 1
    &&& forall|i: int| 0 <= i < s.len() ==> is_tchar_byte(#[trigger] s[i])
}

/// A request method is a token; case matters.
pub open spec fn is_method(s: Seq<char>) -> bool {
    is_token(s)
}

/// A header name is a token of at most [`MAX_HEADER_NAME_LEN`] characters.
pub open spec fn is_header_name(s: Seq<char>) -> bool {
    is_token(s) && s.len() <= MAX_HEADER_NAME_LEN
}

/// A header name, as bytes.
pub open spec fn is_header_name_bytes(s: Seq<u8>) -> bool {
    is_token_bytes(s) && s.len() <= MAX_HEADER_NAME_LEN
}

/// A header value holds no control character but the tab.
pub open spec fn is_header_value(s: Seq<char>) -> bool {
    forall|i: int| 0 <= i < s.len() ==> is_field_char(#[trigger] s[i])
}

/// A header value, as bytes.
pub open spec fn is_header_value_bytes(s: Seq<u8>) -> bool {
    forall|i: int| 0 <= i < s.len() ==> is_field_byte(#[trigger] s[i])
}

/// `s` in lower case: the form in which a header name is kept.
pub open spec fn lowercase(s: Seq<char>) -> Seq<char> {
    Seq::new(s.len(), |i: int| lower_char(s[i]))
}

/// `s` in lower case, as bytes.
pub open spec fn lowercase_bytes(s: Seq<u8>) -> Seq<u8> {
    Seq::new(s.len(), |i: int| lower_byte(s[i]))
}

/// An ASCII character and its byte stand for one another.
proof fn lemma_ascii_cast(c: char)
    requires
        c <= '\u{7f}',
    ensures
        (c as u8) as char == c,
        (c as u8) as int == c as int,
{
}

/// Lower case applied twice is lower case, and keeps a `tchar` a `tchar`.
proof fn lemma_lower_char(c: char)
    ensures
        lower_char(lower_char(c)) == lower_char(c),
        is_tchar(c) ==> is_tchar(lower_char(c)),
{
}

/// The UTF-8 encoding of an ASCII character is the character itself; that of
/// any other character is two or more bytes, each of them 128 or more.
pub proof fn lemma_encode_scalar_bytes(c: char)
    ensures
        c <= '\u{7f}' ==> encode_scalar(c as u32) == seq![c as u8],
        c > '\u{7f}' ==> encode_scalar(c as u32).len() >= 2,
        c > '\u{7f}' ==> forall|k: int|
            0 <= k < encode_scalar(c as u32).len() ==> #[trigger] encode_scalar(c as u32)[k]
                >= 0x80,
{
    let v = c as u32;
    char_is_scalar(c);
    if has_width_1_encoding(v) {
        assert((v & 0x7F) as u8 == v as u8) by (bit_vector)
            requires
                v <= 0x7F,
        ;
    } else {
        assert(0xC0u8 | ((v >> 6) & 0x1F) as u8 >= 0x80) by (bit_vector);
        assert(0xE0u8 | ((v >> 12) & 0x0F) as u8 >= 0x80) by (bit_vector);
        assert(0xF0u8 | ((v >> 18) & 0x7) as u8 >= 0x80) by (bit_vector);
        assert(0x80u8 | (v & 0x3F) as u8 >= 0x80) by (bit_vector);
        assert(0x80u8 | ((v >> 6) & 0x3F) as u8 >= 0x80) by (bit_vector);
        assert(0x80u8 | ((v >> 12) & 0x3F) as u8 >= 0x80) by (bit_vector);
    }
}

/// A text is made of `tchar`s exactly when its UTF-8 bytes are.
pub proof fn lemma_tchars_utf8(s: Seq<char>)
    ensures
        (forall|i: int| 0 <= i < s.len() ==> is_tchar(#[trigger] s[i])) <==> (forall|j: int|
            0 <= j < encode_utf8(s).len() ==> is_tchar_byte(#[trigger] encode_utf8(s)[j])),
        s.len() == 0 <==> encode_utf8(s).len() == 0,
    decreases s.len(),
{
    if s.len() > 0 {
        let rest = s.drop_first();
        let head = encode_scalar(s[0] as u32);
        let tail = encode_utf8(rest);
        let bytes = encode_utf8(s);
        lemma_tchars_utf8(rest);
        lemma_encode_scalar_bytes(s[0]);
        assert(bytes == head + tail);
        if forall|i: int| 0 <= i < s.len() ==> is_tchar(#[trigger] s[i]) {
            assert(is_tchar(s[0]));
            assert forall|i: int| 0 <= i < rest.len() implies is_tchar(#[trigger] rest[i]) by {
                assert(rest[i] == s[i + 1]);
            }
            assert forall|j: int| 0 <= j < bytes.len() implies is_tchar_byte(
                #[trigger] bytes[j],
            ) by {
                if j >= 1 {
                    assert(bytes[j] == tail[j - 1]);
                }
            }
        }
        if forall|j: int| 0 <= j < bytes.len() ==> is_tchar_byte(#[trigger] bytes[j]) {
            assert(is_tchar_byte(bytes[0]));
            assert(bytes[0] == head[0]);
            assert(s[0] <= '\u{7f}');
            lemma_ascii_cast(s[0]);
            assert forall|j: int| 0 <= j < tail.len() implies is_tchar_byte(#[trigger] tail[j]) by {
                assert(tail[j] == bytes[j + 1]);
            }
            assert forall|i: int| 0 <= i < s.len() implies is_tchar(#[trigger] s[i]) by {
                if i >= 1 {
                    assert(s[i] == rest[i - 1]);
                }
            }
        }
    }
}

/// A text may stand in a header value exactly when its UTF-8 bytes may.
pub proof fn lemma_header_value_utf8(s: Seq<char>)
    ensures
        is_header_value(s) <==> is_header_value_bytes(encode_utf8(s)),
    decreases s.len(),
{
    if s.len() > 0 {
        let rest = s.drop_first();
        let head = encode_scalar(s[0] as u32);
        let tail = encode_utf8(rest);
        let bytes = encode_utf8(s);
        lemma_header_value_utf8(rest);
        lemma_encode_scalar_bytes(s[0]);
        assert(bytes == head + tail);
        if is_header_value(s) {
            assert(is_field_char(s[0]));
            assert forall|i: int| 0 <= i < rest.len() implies is_field_char(#[trigger] rest[i]) by {
                assert(rest[i] == s[i + 1]);
            }
            assert forall|j: int| 0 <= j < bytes.len() implies is_field_byte(
                #[trigger] bytes[j],
            ) by {
                if j < head.len() {
                    assert(bytes[j] == head[j]);
                } else {
                    assert(bytes[j] == tail[j - head.len()]);
                }
            }
        }
        if is_header_value_bytes(bytes) {
            assert(is_field_byte(bytes[0]));
            assert(bytes[0] == head[0]);
            if s[0] <= '\u{7f}' {
                lemma_ascii_cast(s[0]);
            }
            assert(is_field_char(s[0]));
            assert forall|j: int| 0 <= j < tail.len() implies is_field_byte(#[trigger] tail[j]) by {
                assert(tail[j] == bytes[j + head.len()]);
            }
            assert forall|i: int| 0 <= i < s.len() implies is_field_char(#[trigger] s[i]) by {
                if i >= 1 {
                    assert(s[i] == rest[i - 1]);
                }
            }
        }
    }
}

/// A text is a token exactly when its UTF-8 bytes are one, and a header name
/// exactly when they are one. A token has one byte for each character.
pub proof fn lemma_token_utf8(s: Seq<char>)
    ensures
        is_token(s) <==> is_token_bytes(encode_utf8(s)),
        is_header_name(s) <==> is_header_name_bytes(encode_utf8(s)),
        is_token(s) ==> is_ascii_chars(s) && encode_utf8(s).len() == s.len(),
{
    lemma_tchars_utf8(s);
    if is_token(s) {
        assert(is_ascii_chars(s));
        is_ascii_chars_encode_utf8(s);
    }
}

/// Lower case commutes with UTF-8 on ASCII text.
pub proof fn lemma_lowercase_utf8(s: Seq<char>)
    requires
        is_ascii_chars(s),
    ensures
        lowercase_bytes(encode_utf8(s)) == encode_utf8(lowercase(s)),
        is_ascii_chars(lowercase(s)),
{
    let low = lowercase(s);
    assert(is_ascii_chars(low));
    is_ascii_chars_encode_utf8(s);
    is_ascii_chars_encode_utf8(low);
    assert(lowercase_bytes(encode_utf8(s)) =~= encode_utf8(low));
}

/// Putting a header name in lower case leaves it a header name, and doing
/// so twice changes nothing more.
pub proof fn lemma_lowercase_idempotent(s: Seq<char>)
    ensures
        lowercase(lowercase(s)) == lowercase(s),
        is_token(s) ==> is_token(lowercase(s)),
        is_header_name(s) ==> is_header_name(lowercase(s)),
{
    assert(lowercase(lowercase(s)) =~= lowercase(s)) by {
        assert forall|i: int| 0 <= i < s.len() implies lower_char(lower_char(s[i]))
            == lower_char(s[i]) by {
            lemma_lower_char(s[i]);
        }
    }
    if is_token(s) {
        assert forall|i: int| 0 <= i < s.len() implies is_tchar(#[trigger] lowercase(s)[i]) by {
            assert(is_tchar(s[i]));
            lemma_lower_char(s[i]);
        }
    }
}

} // verus!
