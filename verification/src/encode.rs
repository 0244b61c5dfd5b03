//! Form-urlencoding of a byte string, as the `application/x-www-form-urlencoded`
//! serializer performs it: alphanumerics and `*-._` pass through, a space
//! becomes `+`, and every other byte becomes `%XX` with uppercase hex digits.
use vstd::prelude::*;
use vstd::string::*;
use vstd::utf8::encode_utf8;

verus! {

/// Bytes the serializer passes through unchanged: ASCII alphanumerics and
/// `*`, `-`, `.`, `_`.
pub open spec fn is_unchanged_byte(b: u8) -> bool {
    ||| b == 42
    ||| b == 45
    ||| b == 46
    ||| b == 95
    ||| (48 <= b && b <= 57)
    ||| (65 <= b && b <= 90)
    ||| (97 <= b && b <= 122)
}

/// The uppercase hex digit for a value below 16.
pub open spec fn hex_upper_digit(n: u8) -> char {
    if n < 10 {
        ((48 + n) as u8) as char
    } else {
        ((55 + n) as u8) as char
    }
}

/// How one byte is serialized.
pub open spec fn encoded_byte(b: u8) -> Seq<char> {
    if is_unchanged_byte(b) {
        seq![b as char]
    } else if b == 32 {
        seq!['+']
    } else {
        seq!['%', hex_upper_digit(b / 16), hex_upper_digit(b % 16)]
    }
}

/// How a whole byte string is serialized.
pub open spec fn form_encoded_bytes(s: Seq<u8>) -> Seq<char>
    decreases s.len(),
{
    if s.len() == 0 {
        Seq::empty()
    } else {
        encoded_byte(s.first()) + form_encoded_bytes(s.drop_first())
    }
}

/// The serialization of a string's UTF-8 bytes.
pub open spec fn form_encoded_str(s: Seq<char>) -> Seq<char> {
    form_encoded_bytes(encode_utf8(s))
}

/// Relies on `url::form_urlencoded::byte_serialize`: percent-encodes the
/// string's UTF-8 bytes in the `application/x-www-form-urlencoded` syntax,
/// leaving alphanumerics and `*-._` unchanged and turning a space into `+`.
#[verifier::external_body]
pub fn form_urlencode(s: &str) -> (r: String)
    ensures
        r@ == form_encoded_str(s@),
{
    url::form_urlencoded::byte_serialize(s.as_bytes()).collect()
}

} // verus!
