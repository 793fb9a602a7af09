//! The current time, in the two forms that stored documents carry.
use vstd::prelude::*;

verus! {

#[verifier::external_type_specification]
#[verifier::external_body]
pub struct ExSystemTime(std::time::SystemTime);

/// The current time in UTC as RFC 3339 text.
///
/// Calls `chrono::Utc::now` and `to_rfc3339`. The time itself is not stated; the contract
/// claims only the UTC offset that chrono writes at the end, `+00:00`.
#[verifier::external_body]
pub(crate) fn now_rfc3339() -> (text: String)
    ensures
        text@.len() >= 6,
        text@.subrange(text@.len() - 6, text@.len() as int) == seq!['+', '0', '0', ':', '0', '0'],
{
    chrono::Utc::now().to_rfc3339()
}

/// The current system time.
///
/// Calls `std::time::SystemTime::now`; nothing is claimed of the value.
#[verifier::external_body]
pub(crate) fn now() -> std::time::SystemTime {
    std::time::SystemTime::now()
}

} // verus!
