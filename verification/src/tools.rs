//! A plain user lookup by name: it reads the hits without checking the answer's status.
use vstd::prelude::*;
use crate::model::User;
use crate::reply::{spec_error_is, ServiceError};
use crate::search::{spec_user_search_query, user_search_query, UserSearchType};
use crate::status::{INTERNAL_SERVER_ERROR, NOT_FOUND};

verus! {

/// The hit count of a user search and the `_source` of its first hit read as a user.
#[derive(Debug, Clone, PartialEq, Eq)]
pub struct UserHits {
    pub total: i64,
    pub first: Option<User>,
}

/// The query of the plain lookup: `username:<name>`.
pub fn lookup_query(username: &str) -> (q: String)
    ensures
        q@ == spec_user_search_query(username@, UserSearchType::ByName),
{
    user_search_query(username, UserSearchType::ByName)
}

/// The outcome of the plain lookup: an unanswered search is an internal error with an
/// empty message, no hits are "User not found" (404), and otherwise the first hit is the
/// user.
pub fn lookup_outcome(found: Option<UserHits>) -> (res: Result<User, ServiceError>)
    requires
        found matches Some(h) ==> (h.total != 0 ==> h.first is Some),
    ensures
        match found {
            None => res matches Err(e) && spec_error_is(e, INTERNAL_SERVER_ERROR, Seq::empty()),
            Some(h) => if h.total == 0 {
                res matches Err(e) && spec_error_is(e, NOT_FOUND, "User not found"@)
            } else {
                res == Ok::<User, ServiceError>(h.first.unwrap())
            },
        },
{
    match found {
        None => Err(ServiceError { status: INTERNAL_SERVER_ERROR, message: String::new() }),
        Some(h) => if h.total == 0 {
            Err(ServiceError::new(NOT_FOUND, "User not found"))
        } else {
            Ok(h.first.unwrap())
        },
    }
}

} // verus!
