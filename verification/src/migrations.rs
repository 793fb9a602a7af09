//! The indices that the service keeps its documents in.
use vstd::prelude::*;
use crate::status::{is_success, spec_is_success};

verus! {

/// The index of user accounts.
pub const USERS_INDEX: &'static str = "users";

/// The index of messages.
pub const MESSAGES_INDEX: &'static str = "messages";

/// Whether an index is to be created, given the status of asking whether it exists: it is
/// created unless the engine answered with success.
pub fn index_missing(exists_status: u16) -> (missing: bool)
    ensures
        missing == !spec_is_success(exists_status),
{
    !is_success(exists_status)
}

} // verus!
