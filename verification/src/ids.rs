//! Account ids and reset tokens: 16-byte UUIDs, their text form, and the
//! calls into the `uuid` crate that make, print and read them.

use vstd::prelude::*;

verus! {

/// The lower-case hexadecimal digit of `n` (`0 <= n < 16`).
pub open spec fn hex_digit(n: int) -> char {
    if n < 10 {
        ('0' as int + n) as char
    } else {
        ('a' as int + (n - 10)) as char
    }
}

/// The bytes `b`, each written as two lower-case hexadecimal digits.
pub open spec fn hex_bytes(b: Seq<u8>) -> Seq<char>
    decreases b.len(),
{
    if b.len() == 0 {
        seq![]
    } else {
        seq![hex_digit(b[0] as int / 16), hex_digit(b[0] as int % 16)] + hex_bytes(b.skip(1))
    }
}

/// The hyphenated text of a UUID: its 16 bytes in hexadecimal, in groups of
/// 4, 2, 2, 2 and 6 bytes joined by hyphens.
pub open spec fn uuid_text(id: Seq<u8>) -> Seq<char> {
    hex_bytes(id.subrange(0, 4)) + seq!['-'] + hex_bytes(id.subrange(4, 6)) + seq!['-']
        + hex_bytes(id.subrange(6, 8)) + seq!['-'] + hex_bytes(id.subrange(8, 10)) + seq!['-']
        + hex_bytes(id.subrange(10, 16))
}

/// A hexadecimal digit, in either case.
pub open spec fn is_hex_char(c: char) -> bool {
    ('0' <= c && c <= '9') || ('a' <= c && c <= 'f') || ('A' <= c && c <= 'F')
}

/// The value of a hexadecimal digit.
pub open spec fn hex_value(c: char) -> int {
    if '0' <= c && c <= '9' {
        c as int - '0' as int
    } else if 'a' <= c && c <= 'f' {
        c as int - 'a' as int + 10
    } else {
        c as int - 'A' as int + 10
    }
}

/// Every character of `s` is a hexadecimal digit.
pub open spec fn all_hex(s: Seq<char>) -> bool {
    forall|i: int| 0 <= i < s.len() ==> is_hex_char(#[trigger] s[i])
}

/// The bytes that the pairs of hexadecimal digits in `s` stand for.
pub open spec fn decode_hex(s: Seq<char>) -> Seq<u8>
    decreases s.len(),
{
    if s.len() < 2 {
        seq![]
    } else {
        seq![(hex_value(s[0]) * 16 + hex_value(s[1])) as u8] + decode_hex(s.skip(2))
    }
}

/// The digits of a 36-character hyphenated text, without its hyphens.
pub open spec fn hyphenated_digits(s: Seq<char>) -> Seq<char> {
    s.subrange(0, 8) + s.subrange(9, 13) + s.subrange(14, 18) + s.subrange(19, 23) + s.subrange(
        24,
        36,
    )
}

/// The UUID that a 36-character text in the hyphenated form stands for.
pub open spec fn parse_hyphenated(s: Seq<char>) -> Option<Seq<u8>> {
    if s.len() == 36 && s[8] == '-' && s[13] == '-' && s[18] == '-' && s[23] == '-' && all_hex(
        hyphenated_digits(s),
    ) {
        Some(decode_hex(hyphenated_digits(s)))
    } else {
        None
    }
}

/// The prefix of the URN form of a UUID.
pub open spec fn urn_prefix() -> Seq<char> {
    seq!['u', 'r', 'n', ':', 'u', 'u', 'i', 'd', ':']
}

/// The UUID that a text stands for, if any: 32 hexadecimal digits; or 36
/// characters with hyphens after the 8th, 12th, 16th and 20th digit; or that
/// hyphenated form behind `urn:uuid:`. Digits may be of either case.
pub open spec fn parse_uuid_text(s: Seq<char>) -> Option<Seq<u8>> {
    if s.len() == 45 && s.subrange(0, 9) == urn_prefix() {
        parse_hyphenated(s.subrange(9, 45))
    } else if s.len() == 36 {
        parse_hyphenated(s)
    } else if s.len() == 32 && all_hex(s) {
        Some(decode_hex(s))
    } else {
        None
    }
}

proof fn lemma_hex_digit(n: int)
    requires
        0 <= n < 16,
    ensures
        is_hex_char(hex_digit(n)),
        hex_value(hex_digit(n)) == n,
{
}

proof fn lemma_hex_bytes_len(b: Seq<u8>)
    ensures
        hex_bytes(b).len() == 2 * b.len(),
    decreases b.len(),
{
    if b.len() > 0 {
        lemma_hex_bytes_len(b.skip(1));
    }
}

proof fn lemma_hex_bytes_concat(a: Seq<u8>, c: Seq<u8>)
    ensures
        hex_bytes(a + c) == hex_bytes(a) + hex_bytes(c),
    decreases a.len(),
{
    if a.len() == 0 {
        assert(a + c =~= c);
    } else {
        assert((a + c).skip(1) =~= a.skip(1) + c);
        lemma_hex_bytes_concat(a.skip(1), c);
    }
}

proof fn lemma_hex_bytes_decode(b: Seq<u8>)
    ensures
        all_hex(hex_bytes(b)),
        decode_hex(hex_bytes(b)) == b,
    decreases b.len(),
{
    if b.len() > 0 {
        lemma_hex_bytes_decode(b.skip(1));
        lemma_hex_digit(b[0] as int / 16);
        lemma_hex_digit(b[0] as int % 16);
        let h = hex_bytes(b);
        let pair = seq![hex_digit(b[0] as int / 16), hex_digit(b[0] as int % 16)];
        assert(h == pair + hex_bytes(b.skip(1)));
        assert(h.skip(2) =~= hex_bytes(b.skip(1)));
        assert forall|i: int| 0 <= i < h.len() implies is_hex_char(#[trigger] h[i]) by {
            if i >= 2 {
                assert(h[i] == hex_bytes(b.skip(1))[i - 2]);
            }
        }
        assert(decode_hex(h) =~= b);
    }
}

/// The text of a UUID has 36 characters.
pub proof fn lemma_uuid_text_len(id: Seq<u8>)
    requires
        id.len() == 16,
    ensures
        uuid_text(id).len() == 36,
{
    lemma_hex_bytes_len(id.subrange(0, 4));
    lemma_hex_bytes_len(id.subrange(4, 6));
    lemma_hex_bytes_len(id.subrange(6, 8));
    lemma_hex_bytes_len(id.subrange(8, 10));
    lemma_hex_bytes_len(id.subrange(10, 16));
}

/// The text of a UUID is read back as that UUID: `parse_uuid_text` undoes
/// `uuid_text`.
pub proof fn lemma_uuid_text_parses(id: Seq<u8>)
    requires
        id.len() == 16,
    ensures
        parse_uuid_text(uuid_text(id)) == Some(id),
{
    let g0 = id.subrange(0, 4);
    let g1 = id.subrange(4, 6);
    let g2 = id.subrange(6, 8);
    let g3 = id.subrange(8, 10);
    let g4 = id.subrange(10, 16);
    lemma_hex_bytes_len(g0);
    lemma_hex_bytes_len(g1);
    lemma_hex_bytes_len(g2);
    lemma_hex_bytes_len(g3);
    lemma_hex_bytes_len(g4);
    lemma_hex_bytes_concat(g0, g1);
    lemma_hex_bytes_concat(g0 + g1, g2);
    lemma_hex_bytes_concat(g0 + g1 + g2, g3);
    lemma_hex_bytes_concat(g0 + g1 + g2 + g3, g4);
    assert(g0 + g1 + g2 + g3 + g4 =~= id);
    let t = uuid_text(id);
    assert(t.len() == 36);
    assert(t[8] == '-');
    assert(t[13] == '-');
    assert(t[18] == '-');
    assert(t[23] == '-');
    assert(hyphenated_digits(t) =~= hex_bytes(id));
    lemma_hex_bytes_decode(id);
}

/// `uuid::Uuid::new_v4`: 16 random bytes with the version nibble set to 4
/// and the variant bits set to `10` (RFC 4122). The contract states those
/// bits and nothing of the random rest.
#[verifier::external_body]
pub(crate) fn new_v4_uuid() -> (r: [u8; 16])
    ensures
        r@[6] / 16 == 4,
        r@[8] / 64 == 2,
{
    *uuid::Uuid::new_v4().as_bytes()
}

/// `ToString` of `uuid::Uuid` (its `Display`, which writes the lower-case
/// hyphenated form): states that the text is exactly `uuid_text` of the bytes.
#[verifier::external_body]
pub(crate) fn uuid_to_text(id: [u8; 16]) -> (r: String)
    ensures
        r@ == uuid_text(id@),
{
    uuid::Uuid::from_bytes(id).to_string()
}

/// `uuid::Uuid::parse_str`: states that it succeeds exactly on the forms that
/// `parse_uuid_text` accepts, with the bytes written there.
#[verifier::external_body]
pub(crate) fn parse_uuid(text: &str) -> (r: Option<[u8; 16]>)
    ensures
        match r {
            Some(b) => parse_uuid_text(text@) == Some(b@),
            None => parse_uuid_text(text@) is None,
        },
{
    match uuid::Uuid::parse_str(text) {
        Ok(u) => Some(*u.as_bytes()),
        Err(_) => None,
    }
}

} // verus!
