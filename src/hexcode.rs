use vstd::prelude::*;

verus! {

/// Whether `c` is a hex digit, in either case.
pub open spec fn is_hex_digit(c: char) -> bool {
    ('0' <= c && c <= '9') || ('a' <= c && c <= 'f') || ('A' <= c && c <= 'F')
}

/// The value of the hex digit `c`.
pub open spec fn digit_value(c: char) -> int {
    if '0' <= c && c <= '9' {
        c as int - '0' as int
    } else if 'a' <= c && c <= 'f' {
        c as int - 'a' as int + 10
    } else {
        c as int - 'A' as int + 10
    }
}

/// The lower-case hex digit of `v`, for `v < 16`.
pub open spec fn lower_digit(v: int) -> char {
    if v < 10 {
        (v + '0' as int) as char
    } else {
        (v - 10 + 'a' as int) as char
    }
}

/// Whether `s` is well-formed hex text: an even number of hex digits.
pub open spec fn is_hex_text(s: Seq<char>) -> bool {
    s.len() % 2 == 0 && forall|i: int| 0 <= i < s.len() ==> #[trigger] is_hex_digit(s[i])
}

/// The bytes that well-formed hex text `s` stands for, two digits a byte,
/// the high half first.
pub open spec fn hex_decoded(s: Seq<char>) -> Seq<u8>
    decreases s.len(),
{
    if s.len() < 2 {
        Seq::empty()
    } else {
        seq![(16 * digit_value(s[0]) + digit_value(s[1])) as u8]
            + hex_decoded(s.subrange(2, s.len() as int))
    }
}

/// The lower-case hex text of `b`, two digits a byte, the high half first.
pub open spec fn hex_encoded(b: Seq<u8>) -> Seq<char>
    decreases b.len(),
{
    if b.len() == 0 {
        Seq::empty()
    } else {
        seq![lower_digit(b[0] as int / 16), lower_digit(b[0] as int % 16)]
            + hex_encoded(b.drop_first())
    }
}

#[verifier::external_type_specification]
#[verifier::external_body]
pub struct ExFromHexError(hex::FromHexError);

/// Relies on hex::decode: it succeeds exactly on an even number of hex
/// digits of either case, and then yields the bytes they stand for.
#[verifier::external_body]
fn decode_hex(s: &str) -> (r: Result<Vec<u8>, hex::FromHexError>)
    ensures
        r is Ok <==> is_hex_text(s@),
        r matches Ok(v) ==> v@ == hex_decoded(s@),
{
    hex::decode(s)
}

/// Relies on hex::encode: two lower-case hex digits for each byte, the high
/// half first.
#[verifier::external_body]
pub(crate) fn encode_hex(b: &[u8]) -> (r: String)
    ensures
        r@ == hex_encoded(b@),
{
    hex::encode(b)
}

/// `s` without a leading "0x", where it has one.
pub open spec fn without_hex_prefix(s: Seq<char>) -> Seq<char> {
    if s.len() >= 2 && s[0] == '0' && s[1] == 'x' {
        s.subrange(2, s.len() as int)
    } else {
        s
    }
}

/// What the lenient decoder makes of `s`: the bytes of its hex text after an
/// optional "0x", or no bytes at all where that text is malformed.
pub open spec fn lenient_decoded(s: Seq<char>) -> Seq<u8> {
    let t = without_hex_prefix(s);
    if is_hex_text(t) {
        hex_decoded(t)
    } else {
        Seq::empty()
    }
}

/// Decodes `hex_str` after an optional "0x" prefix; malformed hex gives an
/// empty result rather than an error.
pub fn hex_to_bytes(hex_str: &str) -> (r: Vec<u8>)
    ensures
        r@ == lenient_decoded(hex_str@),
{
    let n = hex_str.unicode_len();
    let clean = if n >= 2 && hex_str.get_char(0) == '0' && hex_str.get_char(1) == 'x' {
        hex_str.substring_char(2, n)
    } else {
        hex_str
    };
    match decode_hex(clean) {
        Ok(v) => v,
        Err(_) => Vec::new(),
    }
}

} // verus!
