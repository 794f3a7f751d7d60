//! The two text encodings that signed requests are made of: uppercase
//! hexadecimal and the `application/x-www-form-urlencoded` byte serializer.
use vstd::prelude::*;
use vstd::utf8::encode_utf8;

verus! {

/// The sixteen digits of uppercase hexadecimal, in order.
pub open spec fn upper_hex_digits() -> Seq<char> {
    seq!['0', '1', '2', '3', '4', '5', '6', '7', '8', '9', 'A', 'B', 'C', 'D', 'E', 'F']
}

/// The uppercase hexadecimal digit of a value below sixteen.
pub open spec fn upper_hex_digit(n: u8) -> char {
    upper_hex_digits()[(n % 16) as int]
}

/// A character that may stand in an uppercase hexadecimal rendering.
pub open spec fn is_upper_hex_char(c: char) -> bool {
    ('0' <= c && c <= '9') || ('A' <= c && c <= 'F')
}

/// Each byte rendered as two uppercase hexadecimal digits, high nibble first.
pub open spec fn upper_hex(bytes: Seq<u8>) -> Seq<char>
    decreases bytes.len(),
{
    if bytes.len() == 0 {
        Seq::empty()
    } else {
        let b = bytes.last();
        upper_hex(bytes.drop_last()) + seq![upper_hex_digit(b / 16), upper_hex_digit(b % 16)]
    }
}

/// The bytes that the form serializer copies unchanged.
pub open spec fn is_form_unchanged(b: u8) -> bool {
    b == 0x2a || b == 0x2d || b == 0x2e || (0x30 <= b && b <= 0x39) || (0x41 <= b && b <= 0x5a)
        || b == 0x5f || (0x61 <= b && b <= 0x7a)
}

/// What the form serializer writes for one byte: the byte itself, `+` for a
/// space, or `%` and two uppercase hexadecimal digits.
pub open spec fn form_byte(b: u8) -> Seq<char> {
    if is_form_unchanged(b) {
        seq![b as char]
    } else if b == 0x20 {
        seq!['+']
    } else {
        seq!['%', upper_hex_digit(b / 16), upper_hex_digit(b % 16)]
    }
}

/// The form serialization of a byte string.
pub open spec fn form_encoded(bytes: Seq<u8>) -> Seq<char>
    decreases bytes.len(),
{
    if bytes.len() == 0 {
        Seq::empty()
    } else {
        form_encoded(bytes.drop_last()) + form_byte(bytes.last())
    }
}

/// A query string with one more `name=value` pair, both encoded, joined to
/// what was there by `&` unless that was empty.
pub open spec fn form_append(query: Seq<char>, name: Seq<u8>, value: Seq<u8>) -> Seq<char> {
    let sep: Seq<char> = if query.len() == 0 { Seq::empty() } else { seq!['&'] };
    query + sep + form_encoded(name) + seq!['='] + form_encoded(value)
}

/// Uppercase hexadecimal has two digits per byte, each one of `0-9A-F`.
pub proof fn lemma_upper_hex_shape(bytes: Seq<u8>)
    ensures
        upper_hex(bytes).len() == 2 * bytes.len(),
        forall|i: int| 0 <= i < upper_hex(bytes).len() ==> is_upper_hex_char(#[trigger] upper_hex(bytes)[i]),
    decreases bytes.len(),
{
    if bytes.len() > 0 {
        lemma_upper_hex_shape(bytes.drop_last());
        let b = bytes.last();
        lemma_upper_hex_digit(b / 16);
        lemma_upper_hex_digit(b % 16);
        let prev = upper_hex(bytes.drop_last());
        let tail = seq![upper_hex_digit(b / 16), upper_hex_digit(b % 16)];
        assert forall|i: int| 0 <= i < upper_hex(bytes).len() implies is_upper_hex_char(
            #[trigger] upper_hex(bytes)[i],
        ) by {
            if i < prev.len() {
                assert(upper_hex(bytes)[i] == prev[i]);
            } else {
                assert(upper_hex(bytes)[i] == tail[i - prev.len()]);
            }
        }
    }
}

/// Every digit is one of `0-9A-F`.
pub proof fn lemma_upper_hex_digit(n: u8)
    ensures
        is_upper_hex_char(upper_hex_digit(n)),
{
    let d = upper_hex_digits();
    assert(is_upper_hex_char(d[0]) && is_upper_hex_char(d[1]) && is_upper_hex_char(d[2])
        && is_upper_hex_char(d[3]) && is_upper_hex_char(d[4]) && is_upper_hex_char(d[5])
        && is_upper_hex_char(d[6]) && is_upper_hex_char(d[7]) && is_upper_hex_char(d[8])
        && is_upper_hex_char(d[9]) && is_upper_hex_char(d[10]) && is_upper_hex_char(d[11])
        && is_upper_hex_char(d[12]) && is_upper_hex_char(d[13]) && is_upper_hex_char(d[14])
        && is_upper_hex_char(d[15]));
}

/// Relies on hex::encode_upper: two uppercase digits for each byte, high
/// nibble first, in the order of the bytes.
#[verifier::external_body]
pub(crate) fn encode_upper(bytes: &[u8]) -> (r: String)
    ensures
        r@ == upper_hex(bytes@),
{
    hex::encode_upper(bytes)
}

/// Relies on the form serializer of form_urlencoded (re-exported by url, and
/// the one behind `Url::query_pairs_mut`): `append_pair` writes `&` after a
/// non-empty target, then the encoded name, `=`, and the encoded value.
#[verifier::external_body]
pub(crate) fn form_append_pair(query: String, name: &str, value: &str) -> (r: String)
    ensures
        r@ == form_append(query@, encode_utf8(name@), encode_utf8(value@)),
{
    url::form_urlencoded::Serializer::new(query).append_pair(name, value).finish()
}

} // verus!
