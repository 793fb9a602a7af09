//! HTTP status codes as the service uses them.
use vstd::prelude::*;

verus! {

pub const OK: u16 = 200;

pub const UNAUTHORIZED: u16 = 401;

pub const NOT_FOUND: u16 = 404;

pub const INTERNAL_SERVER_ERROR: u16 = 500;

pub const SERVICE_UNAVAILABLE: u16 = 503;

/// A status code that HTTP can carry: three decimal digits.
pub open spec fn spec_is_status(code: u16) -> bool {
    100 <= code <= 999
}

/// A 2xx status: the request succeeded.
pub open spec fn spec_is_success(code: u16) -> bool {
    200 <= code <= 299
}

/// Whether a status code reports success (the 2xx range), as `StatusCode::is_success` decides it.
pub fn is_success(code: u16) -> (b: bool)
    ensures
        b == spec_is_success(code),
{
    200 <= code && code <= 299
}

/// The decimal digit `d` (0 to 9) as a character.
pub open spec fn spec_digit(d: int) -> char {
    ('0' as int + d) as char
}

/// The three decimal digits of a status code.
pub open spec fn spec_status_digits(code: u16) -> Seq<char> {
    seq![spec_digit(code as int / 100), spec_digit((code as int / 10) % 10), spec_digit(code as int % 10)]
}

/// The text that `http::StatusCode` displays for `code`: its digits, a space and the
/// canonical reason phrase (or a fixed placeholder for codes without one).
pub uninterp spec fn status_line(code: u16) -> Seq<char>;

/// Displays a status code the way `http::StatusCode`'s `Display` does.
///
/// Calls `StatusCode::from_u16` and `to_string` (through `opensearch::http`). The contract
/// names the text `status_line(code)` and states that it opens with the code's three digits
/// and a space; the reason phrase after them (a table of the `http` crate) is left unsaid.
#[verifier::external_body]
pub(crate) fn status_text(code: u16) -> (text: String)
    requires
        spec_is_status(code),
    ensures
        text@ == status_line(code),
        text@.len() >= 4,
        text@.subrange(0, 3) == spec_status_digits(code),
        text@[3] == ' ',
{
    opensearch::http::StatusCode::from_u16(code).expect("a three-digit status code").to_string()
}

} // verus!
