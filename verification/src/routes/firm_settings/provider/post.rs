use vstd::prelude::*;
use vstd::utf8::encode_utf8;

use crate::routes::firm_settings::provider::get::firm_provider_settings_path;

verus! {

/// The firm named in the path of a request.
#[derive(Debug)]
pub struct QueryInfo {
    pub firm_name: String,
}

/// A byte that percent-encoding leaves as it is: an ASCII letter or digit, `-`, `.`, `_`
/// or `~`.
pub open spec fn unreserved(b: u8) -> bool {
    (0x30 <= b <= 0x39) || (0x41 <= b <= 0x5a) || (0x61 <= b <= 0x7a) || b == 0x2d || b == 0x2e
        || b == 0x5f || b == 0x7e
}

/// Upper-case hexadecimal digit of `d` (0 to 15).
pub open spec fn hex_digit(d: int) -> char {
    if d < 10 {
        crate::text::digit_char(d)
    } else if d == 10 {
        'A'
    } else if d == 11 {
        'B'
    } else if d == 12 {
        'C'
    } else if d == 13 {
        'D'
    } else if d == 14 {
        'E'
    } else {
        'F'
    }
}

/// A byte, percent-encoded: itself when unreserved, else `%` and two upper-case hex digits.
pub open spec fn encoded_byte(b: u8) -> Seq<char> {
    if unreserved(b) {
        seq![b as char]
    } else {
        seq!['%', hex_digit(b as int / 16), hex_digit(b as int % 16)]
    }
}

/// Bytes, each percent-encoded.
pub open spec fn percent_encoded(bytes: Seq<u8>) -> Seq<char>
    decreases bytes.len(),
{
    if bytes.len() == 0 {
        Seq::empty()
    } else {
        percent_encoded(bytes.drop_last()) + encoded_byte(bytes.last())
    }
}

/// Calls `urlencoding::encode`, which percent-encodes every byte of the UTF-8 encoding of
/// `data` but ASCII letters and digits, `-`, `.`, `_` and `~`, with upper-case hex digits.
#[verifier::external_body]
fn url_encode(data: &str) -> (r: String)
    ensures
        r@ == percent_encoded(encode_utf8(data@)),
{
    urlencoding::encode(data).into_owned()
}

/// Path of the locator's provider settings of firm `firm_name`, with the name
/// percent-encoded.
pub fn replace_firm_provider_settings_path(firm_name: &str) -> (r: String)
    ensures
        r@ == "/api/settings/firm/"@ + percent_encoded(encode_utf8(firm_name@)) + "/provider"@,
{
    let encoded = url_encode(firm_name);
    firm_provider_settings_path(encoded.as_str())
}

} // verus!
