//! Percent-encoding of query parameters and decoding of `file://` paths.

use vstd::prelude::*;
use vstd::string::*;
use vstd::utf8::*;
use crate::text::{chars_of, push_char, string_from_chars};

verus! {

broadcast use vstd::string::group_string_axioms;

/// RFC 3986 unreserved bytes: ASCII letters, digits and `- . _ ~`.
pub open spec fn is_unreserved(b: u8) -> bool {
    ||| 65 <= b <= 90
    ||| 97 <= b <= 122
    ||| 48 <= b <= 57
    ||| b == 45
    ||| b == 46
    ||| b == 95
    ||| b == 126
}

/// The uppercase hexadecimal digit for `n` (`n < 16`).
pub open spec fn hex_digit(n: u8) -> char {
    if n < 10 {
        (48 + n) as char
    } else {
        (55 + n) as char
    }
}

/// How one byte of the input is written in the encoded query.
pub open spec fn encode_byte(b: u8) -> Seq<char> {
    if is_unreserved(b) {
        seq![b as char]
    } else if b == 32 {
        seq!['+']
    } else {
        seq!['%', hex_digit(b / 16), hex_digit(b % 16)]
    }
}

/// The encoding of a byte string: each byte encoded in turn.
pub open spec fn url_encoded(bytes: Seq<u8>) -> Seq<char>
    decreases bytes.len(),
{
    if bytes.len() == 0 {
        Seq::empty()
    } else {
        url_encoded(bytes.drop_last()) + encode_byte(bytes.last())
    }
}

/// The characters that can appear in an encoded query: unreserved
/// characters, `+` for a space, and `%` followed by uppercase hex digits.
pub open spec fn is_query_safe(c: char) -> bool {
    ||| ('A' <= c && c <= 'Z')
    ||| ('a' <= c && c <= 'z')
    ||| ('0' <= c && c <= '9')
    ||| c == '-'
    ||| c == '.'
    ||| c == '_'
    ||| c == '~'
    ||| c == '+'
    ||| c == '%'
}

proof fn lemma_encode_byte_safe(b: u8)
    ensures
        forall|i: int| 0 <= i < encode_byte(b).len() ==> is_query_safe(#[trigger] encode_byte(b)[i]),
{
}

proof fn lemma_url_encoded_safe(bytes: Seq<u8>)
    ensures
        forall|i: int| 0 <= i < url_encoded(bytes).len() ==> is_query_safe(#[trigger] url_encoded(bytes)[i]),
    decreases bytes.len(),
{
    if bytes.len() > 0 {
        lemma_url_encoded_safe(bytes.drop_last());
        lemma_encode_byte_safe(bytes.last());
        let a = url_encoded(bytes.drop_last());
        let b = encode_byte(bytes.last());
        assert forall|i: int| 0 <= i < url_encoded(bytes).len() implies is_query_safe(
            #[trigger] url_encoded(bytes)[i],
        ) by {
            if i < a.len() {
                assert(url_encoded(bytes)[i] == a[i]);
            } else {
                assert(url_encoded(bytes)[i] == b[i - a.len()]);
            }
        }
    }
}

proof fn lemma_url_encoded_concat(a: Seq<u8>, b: Seq<u8>)
    ensures
        url_encoded(a + b) == url_encoded(a) + url_encoded(b),
    decreases b.len(),
{
    if b.len() == 0 {
        assert(a + b =~= a);
        assert(url_encoded(a) + url_encoded(b) =~= url_encoded(a));
    } else {
        lemma_url_encoded_concat(a, b.drop_last());
        assert((a + b).drop_last() =~= a + b.drop_last());
        assert((a + b).last() == b.last());
        assert(url_encoded(a) + url_encoded(b.drop_last()) + encode_byte(b.last()) =~= url_encoded(
            a,
        ) + (url_encoded(b.drop_last()) + encode_byte(b.last())));
    }
}

proof fn lemma_url_encoded_first(bytes: Seq<u8>)
    requires
        bytes.len() > 0,
    ensures
        url_encoded(bytes) == encode_byte(bytes[0]) + url_encoded(bytes.drop_first()),
{
    assert(bytes =~= seq![bytes[0]] + bytes.drop_first());
    lemma_url_encoded_concat(seq![bytes[0]], bytes.drop_first());
    assert(seq![bytes[0]].drop_last() =~= Seq::<u8>::empty());
    assert(url_encoded(Seq::<u8>::empty()) =~= Seq::<char>::empty());
    assert(seq![bytes[0]].last() == bytes[0]);
    assert(url_encoded(seq![bytes[0]]) =~= Seq::<char>::empty() + encode_byte(bytes[0]));
    assert(url_encoded(seq![bytes[0]]) =~= encode_byte(bytes[0]));
}

proof fn lemma_hex_digit_value(n: u8)
    requires
        n < 16,
    ensures
        hex_value(hex_digit(n)) == Some(n),
        hex_digit(n) != '+',
{
}

/// The bytes of a text of ASCII characters, one per character.
spec fn ascii_bytes(cs: Seq<char>) -> Seq<u8> {
    cs.map_values(|c: char| c as u8)
}

proof fn lemma_hex_digit_byte(n: u8)
    requires
        n < 16,
    ensures
        ((hex_digit(n) as u8) as char) == hex_digit(n),
{
}

proof fn lemma_decode_encoded_byte(b: u8, rest: Seq<u8>)
    requires
        b != 32,
    ensures
        percent_decoded_bytes(ascii_bytes(encode_byte(b)) + rest) == seq![b] + percent_decoded_bytes(
            rest,
        ),
{
    let e = ascii_bytes(encode_byte(b)) + rest;
    if is_unreserved(b) {
        assert(e[0] == ((b as char) as u8));
        assert(((b as char) as u8) == b);
        assert(e.subrange(1, e.len() as int) =~= rest);
        assert(seq![e[0]] + percent_decoded_bytes(e.subrange(1, e.len() as int)) =~= seq![b]
            + percent_decoded_bytes(rest));
    } else {
        lemma_hex_digit_value(b / 16);
        lemma_hex_digit_value(b % 16);
        lemma_hex_digit_byte(b / 16);
        lemma_hex_digit_byte(b % 16);
        assert(e[0] == ('%' as u8) && e[1] == hex_digit(b / 16) as u8 && e[2] == hex_digit(b % 16)
            as u8);
        assert(('%' as u8) == 37u8);
        assert(parse_hex_pair(e[1] as char, e[2] as char) == Some(b));
        assert(e.subrange(3, e.len() as int) =~= rest);
    }
}

proof fn lemma_decode_encoded_bytes(bytes: Seq<u8>)
    requires
        forall|i: int| 0 <= i < bytes.len() ==> bytes[i] != 32,
    ensures
        percent_decoded_bytes(ascii_bytes(url_encoded(bytes))) == bytes,
    decreases bytes.len(),
{
    if bytes.len() == 0 {
        assert(ascii_bytes(url_encoded(bytes)) =~= Seq::<u8>::empty());
    } else {
        let rest = ascii_bytes(url_encoded(bytes.drop_first()));
        lemma_url_encoded_first(bytes);
        lemma_decode_encoded_bytes(bytes.drop_first());
        assert(ascii_bytes(url_encoded(bytes)) =~= ascii_bytes(encode_byte(bytes[0])) + rest);
        lemma_decode_encoded_byte(bytes[0], rest);
        assert(bytes =~= seq![bytes[0]] + bytes.drop_first());
    }
}

proof fn lemma_scalar_bytes_not_space(c: u32)
    requires
        c != 32,
    ensures
        forall|i: int| 0 <= i < encode_scalar(c).len() ==> #[trigger] encode_scalar(c)[i] != 32,
{
    assert(has_width_1_encoding(c) ==> leading_byte_width_1(c) != 32) by (bit_vector)
        requires
            c != 32,
    ;
    assert(forall|x: u8| #[trigger] (0xC0u8 | x) != 32u8) by (bit_vector);
    assert(forall|x: u8| #[trigger] (0xE0u8 | x) != 32u8) by (bit_vector);
    assert(forall|x: u8| #[trigger] (0xF0u8 | x) != 32u8) by (bit_vector);
    assert(forall|x: u8| #[trigger] (0x80u8 | x) != 32u8) by (bit_vector);
}

proof fn lemma_encoding_has_no_space_byte(text: Seq<char>)
    requires
        forall|i: int| 0 <= i < text.len() ==> text[i] != ' ',
    ensures
        forall|i: int| 0 <= i < encode_utf8(text).len() ==> #[trigger] encode_utf8(text)[i] != 32,
    decreases text.len(),
{
    if text.len() > 0 {
        assert forall|i: int| 0 <= i < text.drop_first().len() implies text.drop_first()[i] != ' ' by {
            assert(text.drop_first()[i] == text[i + 1]);
        }
        lemma_encoding_has_no_space_byte(text.drop_first());
        assert((text[0] as u32) != 32) by {
            char_u32_cast(text[0], text[0] as u32);
            if (text[0] as u32) == 32 {
                assert(((text[0] as u32) as char) == ' ');
            }
        }
        lemma_scalar_bytes_not_space(text[0] as u32);
        let h = encode_scalar(text[0] as u32);
        let t = encode_utf8(text.drop_first());
        assert forall|i: int| 0 <= i < (h + t).len() implies #[trigger] (h + t)[i] != 32 by {
            if i < h.len() {
                assert((h + t)[i] == h[i]);
            } else {
                assert((h + t)[i] == t[i - h.len()]);
            }
        }
    }
}

/// Decoding the encoding of a text that holds no space gives the text
/// back, whatever its characters. (A space is encoded as `+`, which the
/// path decoder keeps, so `"a b"` comes back as `"a+b"`.)
pub proof fn lemma_decode_inverts_encode(text: Seq<char>)
    requires
        forall|i: int| 0 <= i < text.len() ==> text[i] != ' ',
    ensures
        url_decoded(url_encoded(encode_utf8(text))) == text,
{
    let bytes = encode_utf8(text);
    let e = url_encoded(bytes);
    lemma_encoding_has_no_space_byte(text);
    lemma_decode_encoded_bytes(bytes);
    lemma_url_encoded_safe(bytes);
    assert(is_ascii_chars(e)) by {
        assert forall|i: int| 0 <= i < e.len() implies '\0' <= #[trigger] e[i] <= '\u{7f}' by {
            assert(is_query_safe(e[i]));
        }
    }
    is_ascii_chars_encode_utf8(e);
    assert(encode_utf8(e) =~= ascii_bytes(e));
    encode_utf8_valid_utf8(text);
    encode_utf8_decode_utf8(text);
}

fn hex_digit_exec(n: u8) -> (c: char)
    requires
        n < 16,
    ensures
        c == hex_digit(n),
{
    if n < 10 {
        (48 + n) as char
    } else {
        (55 + n) as char
    }
}

/// Percent-encodes a string for use as a URL query value.
///
/// Every byte of the UTF-8 encoding that is not RFC 3986 unreserved is
/// written as `%XX` (uppercase hex), except the space, which becomes `+`.
/// Reserved characters such as `&`, `=`, `?` or `/` therefore never appear
/// in the result and cannot change the structure of the query string.
pub fn url_encode(input: &str) -> (encoded: String)
    ensures
        encoded@ == url_encoded(input.spec_bytes()),
        forall|i: int| 0 <= i < encoded@.len() ==> is_query_safe(#[trigger] encoded@[i]),
        forall|i: int|
            0 <= i < encoded@.len() ==> {
                &&& encoded@[i] != '&'
                &&& encoded@[i] != '='
                &&& encoded@[i] != '?'
                &&& encoded@[i] != '/'
                &&& encoded@[i] != '#'
                &&& encoded@[i] != ' '
            },
{
    let bytes = input.as_bytes();
    let mut encoded = String::new();
    let mut i: usize = 0;
    while i < bytes.len()
        invariant
            i <= bytes@.len(),
            bytes@ == input.spec_bytes(),
            encoded@ == url_encoded(bytes@.subrange(0, i as int)),
        decreases bytes.len() - i,
    {
        let byte = bytes[i];
        proof {
            assert(bytes@.subrange(0, i + 1).drop_last() =~= bytes@.subrange(0, i as int));
        }
        if (65 <= byte && byte <= 90) || (97 <= byte && byte <= 122) || (48 <= byte && byte
            <= 57) || byte == 45 || byte == 46 || byte == 95 || byte == 126 {
            push_char(&mut encoded, byte as char);
        } else if byte == 32 {
            push_char(&mut encoded, '+');
        } else {
            push_char(&mut encoded, '%');
            push_char(&mut encoded, hex_digit_exec(byte / 16));
            push_char(&mut encoded, hex_digit_exec(byte % 16));
        }
        proof {
            assert(encoded@ =~= url_encoded(bytes@.subrange(0, i + 1)));
        }
        i = i + 1;
    }
    proof {
        assert(bytes@.subrange(0, bytes@.len() as int) =~= bytes@);
        lemma_url_encoded_safe(bytes@);
    }
    encoded
}

/// The value of a hexadecimal digit of either case.
pub open spec fn hex_value(c: char) -> Option<u8> {
    if '0' <= c && c <= '9' {
        Some((c as u8 - 48) as u8)
    } else if 'a' <= c && c <= 'f' {
        Some((c as u8 - 87) as u8)
    } else if 'A' <= c && c <= 'F' {
        Some((c as u8 - 55) as u8)
    } else {
        None
    }
}

/// What `u8::from_str_radix(text, 16)` gives for the two-character text
/// `c1 c2`: a leading `+` sign is accepted before a single digit.
pub open spec fn parse_hex_pair(c1: char, c2: char) -> Option<u8> {
    if c1 == '+' {
        hex_value(c2)
    } else {
        match (hex_value(c1), hex_value(c2)) {
            (Some(h), Some(l)) => Some((h * 16 + l) as u8),
            _ => None,
        }
    }
}

/// The path decoding of a text whose escapes do not form UTF-8: `%`
/// followed by two characters that parse as a hexadecimal byte becomes the
/// character with that code (U+0000 to U+00FF); every other character is
/// kept.
pub open spec fn escapes_as_chars(s: Seq<char>) -> Seq<char>
    decreases s.len(),
{
    if s.len() == 0 {
        Seq::empty()
    } else if s[0] == '%' && s.len() >= 3 && parse_hex_pair(s[1], s[2]) is Some {
        seq![parse_hex_pair(s[1], s[2])->0 as char] + escapes_as_chars(s.subrange(3, s.len() as int))
    } else {
        seq![s[0]] + escapes_as_chars(s.subrange(1, s.len() as int))
    }
}

/// The bytes that an escaped path stands for: `%` followed by two bytes
/// that parse as a hexadecimal byte stands for that byte; every other byte
/// stands for itself.
pub open spec fn percent_decoded_bytes(b: Seq<u8>) -> Seq<u8>
    decreases b.len(),
{
    if b.len() == 0 {
        Seq::empty()
    } else if b[0] == 37 && b.len() >= 3 && parse_hex_pair(b[1] as char, b[2] as char) is Some {
        seq![parse_hex_pair(b[1] as char, b[2] as char)->0] + percent_decoded_bytes(
            b.subrange(3, b.len() as int),
        )
    } else {
        seq![b[0]] + percent_decoded_bytes(b.subrange(1, b.len() as int))
    }
}

/// The decoding of a `file://` path: the bytes its UTF-8 encoding stands
/// for once the `%XX` escapes are decoded, read as UTF-8; where those bytes
/// are no UTF-8, each escape becomes the character with its code.
pub open spec fn url_decoded(s: Seq<char>) -> Seq<char> {
    let b = percent_decoded_bytes(encode_utf8(s));
    if valid_utf8(b) {
        decode_utf8(b)
    } else {
        escapes_as_chars(s)
    }
}

fn hex_value_exec(c: char) -> (r: Option<u8>)
    ensures
        r == hex_value(c),
{
    if '0' <= c && c <= '9' {
        Some((c as u8) - 48)
    } else if 'a' <= c && c <= 'f' {
        Some((c as u8) - 87)
    } else if 'A' <= c && c <= 'F' {
        Some((c as u8) - 55)
    } else {
        None
    }
}

fn parse_hex_pair_exec(c1: char, c2: char) -> (r: Option<u8>)
    ensures
        r == parse_hex_pair(c1, c2),
{
    if c1 == '+' {
        hex_value_exec(c2)
    } else {
        match (hex_value_exec(c1), hex_value_exec(c2)) {
            (Some(h), Some(l)) => Some(h * 16 + l),
            _ => None,
        }
    }
}

fn decode_escapes_as_chars(input: &str) -> (output: String)
    ensures
        output@ == escapes_as_chars(input@),
{
    let chars = chars_of(input);
    let n: usize = chars.len();
    let mut out: Vec<char> = Vec::new();
    let mut i: usize = 0;
    assert(chars@.subrange(0, n as int) =~= chars@);
    assert(out@ + escapes_as_chars(chars@) =~= escapes_as_chars(chars@));
    while i < n
        invariant
            i <= n,
            n == chars@.len(),
            chars@ == input@,
            out@ + escapes_as_chars(chars@.subrange(i as int, n as int)) == escapes_as_chars(input@),
        decreases n - i,
    {
        let ghost rest = chars@.subrange(i as int, n as int);
        let c = chars[i];
        if c == '%' && n - i > 2 {
            if let Some(byte) = parse_hex_pair_exec(chars[i + 1], chars[i + 2]) {
                proof {
                    assert(rest[0] == c && rest[1] == chars@[i + 1] && rest[2] == chars@[i + 2]);
                    assert(rest.subrange(3, rest.len() as int) =~= chars@.subrange(i + 3, n as int));
                    assert(out@.push(byte as char) + escapes_as_chars(chars@.subrange(i + 3, n as int))
                        =~= out@ + escapes_as_chars(rest));
                }
                out.push(byte as char);
                i = i + 3;
                continue;
            }
        }
        proof {
            assert(rest[0] == c);
            if c == '%' && rest.len() >= 3 {
                assert(rest[1] == chars@[i + 1] && rest[2] == chars@[i + 2]);
            }
            assert(rest.subrange(1, rest.len() as int) =~= chars@.subrange(i + 1, n as int));
            assert(out@.push(c) + escapes_as_chars(chars@.subrange(i + 1, n as int)) =~= out@
                + escapes_as_chars(rest));
        }
        out.push(c);
        i = i + 1;
    }
    proof {
        assert(chars@.subrange(n as int, n as int) =~= Seq::<char>::empty());
        assert(out@ =~= escapes_as_chars(input@));
    }
    string_from_chars(out.as_slice())
}

/// `String::from_utf8`: the string holding exactly the given bytes, where
/// they are valid UTF-8; `None` (its error) where they are not.
#[verifier::external_body]
fn utf8_string(bytes: Vec<u8>) -> (r: Option<String>)
    ensures
        r is Some <==> valid_utf8(bytes@),
        r matches Some(s) ==> encode_utf8(s@) == bytes@,
{
    match String::from_utf8(bytes) {
        Ok(s) => Some(s),
        Err(_) => None,
    }
}

/// The bytes an escaped path stands for (see `percent_decoded_bytes`).
fn decode_percent_bytes(b: &[u8]) -> (out: Vec<u8>)
    ensures
        out@ == percent_decoded_bytes(b@),
{
    let n: usize = b.len();
    let mut out: Vec<u8> = Vec::new();
    let mut i: usize = 0;
    assert(b@.subrange(0, n as int) =~= b@);
    assert(out@ + percent_decoded_bytes(b@) =~= percent_decoded_bytes(b@));
    while i < n
        invariant
            i <= n,
            n == b@.len(),
            out@ + percent_decoded_bytes(b@.subrange(i as int, n as int)) == percent_decoded_bytes(b@),
        decreases n - i,
    {
        let ghost rest = b@.subrange(i as int, n as int);
        let c = b[i];
        if c == 37 && n - i > 2 {
            if let Some(byte) = parse_hex_pair_exec(b[i + 1] as char, b[i + 2] as char) {
                proof {
                    assert(rest[0] == c && rest[1] == b@[i + 1] && rest[2] == b@[i + 2]);
                    assert(rest.subrange(3, rest.len() as int) =~= b@.subrange(i + 3, n as int));
                    assert(out@.push(byte) + percent_decoded_bytes(b@.subrange(i + 3, n as int))
                        =~= out@ + percent_decoded_bytes(rest));
                }
                out.push(byte);
                i = i + 3;
                continue;
            }
        }
        proof {
            assert(rest[0] == c);
            if c == 37 && rest.len() >= 3 {
                assert(rest[1] == b@[i + 1] && rest[2] == b@[i + 2]);
            }
            assert(rest.subrange(1, rest.len() as int) =~= b@.subrange(i + 1, n as int));
            assert(out@.push(c) + percent_decoded_bytes(b@.subrange(i + 1, n as int)) =~= out@
                + percent_decoded_bytes(rest));
        }
        out.push(c);
        i = i + 1;
    }
    proof {
        assert(b@.subrange(n as int, n as int) =~= Seq::<u8>::empty());
        assert(out@ =~= percent_decoded_bytes(b@));
    }
    out
}

/// Decodes the `%XX` escapes of a `file://` path: the decoded bytes are
/// read as UTF-8 (`"M%C3%BAsica"` names `"Música"`). A `+` is kept as it
/// is. Where the decoded bytes are no UTF-8, each escape becomes the
/// character with its code.
pub fn url_decode(input: &str) -> (output: String)
    ensures
        output@ == url_decoded(input@),
        valid_utf8(percent_decoded_bytes(encode_utf8(input@))) ==> encode_utf8(output@)
            == percent_decoded_bytes(encode_utf8(input@)),
{
    let bytes = decode_percent_bytes(input.as_bytes());
    let ghost b = bytes@;
    match utf8_string(bytes) {
        Some(s) => {
            proof {
                encode_utf8_decode_utf8(s@);
            }
            s
        },
        None => decode_escapes_as_chars(input),
    }
}

} // verus!
