//! Friend lists.
use vstd::prelude::*;
use crate::ids::{parse_id, uuid_text_value};
use crate::model::{spec_public, User};
use crate::reply::{spec_error_is, spec_error_view, spec_text_is, text_reply, Reply, ServiceError};
use crate::search::{
    lookup_result, spec_lookup, spec_user_reply_complete, spec_user_search_query,
    user_search_query, UserSearchReply, UserSearchType, WriteReply,
};
use crate::status::{is_success, spec_is_success, INTERNAL_SERVER_ERROR, OK, UNAUTHORIZED};

verus! {

/// The friend list after befriending `friend`: unchanged when `friend` is on it already,
/// otherwise with `friend` added at the end.
pub open spec fn spec_befriend(list: Seq<u128>, friend: u128) -> Seq<u128> {
    if list.contains(friend) {
        list
    } else {
        list.push(friend)
    }
}

/// No identifier is on `list` twice.
pub open spec fn spec_no_duplicates(list: Seq<u128>) -> bool {
    forall|i: int, j: int| 0 <= i < j < list.len() ==> list[i] != list[j]
}

/// Whether `friend` is on `list`.
pub fn has_friend(list: &Vec<u128>, friend: u128) -> (found: bool)
    ensures
        found == list@.contains(friend),
{
    let n: usize = list.len();
    for i in 0..n
        invariant
            n == list@.len(),
            forall|j: int| 0 <= j < i ==> list@[j] != friend,
    {
        if list[i] == friend {
            return true;
        }
    }
    false
}

/// Befriends `friend`: adds it at the end of `list` unless it is there already, and tells
/// whether it was added.
pub fn add_friend(list: &mut Vec<u128>, friend: u128) -> (added: bool)
    ensures
        added == !old(list)@.contains(friend),
        final(list)@ == spec_befriend(old(list)@, friend),
{
    if has_friend(list, friend) {
        false
    } else {
        list.push(friend);
        true
    }
}

/// After befriending, the friend is on the list.
pub proof fn befriend_lists_friend(list: Seq<u128>, friend: u128)
    ensures
        spec_befriend(list, friend).contains(friend),
{
    if !list.contains(friend) {
        assert(spec_befriend(list, friend)[list.len() as int] == friend);
    }
}

/// Befriending keeps every earlier friend, in place: the old list is a prefix of the new.
pub proof fn befriend_keeps_friends(list: Seq<u128>, friend: u128)
    ensures
        spec_befriend(list, friend).len() <= list.len() + 1,
        spec_befriend(list, friend).subrange(0, list.len() as int) == list,
{
    assert(spec_befriend(list, friend).subrange(0, list.len() as int) =~= list);
}

/// Befriending someone twice is the same as befriending them once.
pub proof fn befriend_is_idempotent(list: Seq<u128>, friend: u128)
    ensures
        spec_befriend(spec_befriend(list, friend), friend) == spec_befriend(list, friend),
{
    befriend_lists_friend(list, friend);
}

/// A friend list without repeats stays without repeats.
pub proof fn befriend_keeps_no_duplicates(list: Seq<u128>, friend: u128)
    requires
        spec_no_duplicates(list),
    ensures
        spec_no_duplicates(spec_befriend(list, friend)),
{
    let after = spec_befriend(list, friend);
    if !list.contains(friend) {
        assert forall|i: int, j: int| 0 <= i < j < after.len() implies after[i] != after[j] by {
            if j == list.len() {
                assert(after[i] == list[i]);
                if list[i] == friend {
                    assert(list.contains(friend));
                }
            }
        }
    }
}

/// Who is to be befriended.
#[derive(Debug, Clone, PartialEq, Eq)]
pub enum FriendRef {
    /// The request named an identifier.
    Known(u128),
    /// The request named a user; the friend is looked up with this query.
    Lookup(String),
}

/// The first step of befriending, given the lookup of the signed-in user's own account: the
/// lookup's error, or the account and who the request names (an identifier, or a user name
/// to look up).
pub fn friend_request(own_lookup: UserSearchReply, friend_name_or_id: &str) -> (res: Result<(User, FriendRef), ServiceError>)
    requires
        spec_user_reply_complete(own_lookup),
    ensures
        match spec_lookup(own_lookup) {
            Err(e) => res matches Err(e2) && spec_error_view(e2) == e,
            Ok(u) => res matches Ok((account, target)) && account == u && match uuid_text_value(friend_name_or_id@) {
                Some(id) => target == FriendRef::Known(id),
                None => target matches FriendRef::Lookup(q)
                    && q@ == spec_user_search_query(friend_name_or_id@, UserSearchType::ByName),
            },
        },
{
    let account = match lookup_result(own_lookup) {
        Ok(u) => u,
        Err(e) => return Err(e),
    };
    let target = match parse_id(friend_name_or_id) {
        Some(id) => FriendRef::Known(id),
        None => FriendRef::Lookup(user_search_query(friend_name_or_id, UserSearchType::ByName)),
    };
    Ok((account, target))
}

/// The friend found by name: the user's identifier, or the lookup's error.
pub fn friend_from_lookup(lookup: UserSearchReply) -> (res: Result<u128, ServiceError>)
    requires
        spec_user_reply_complete(lookup),
    ensures
        match spec_lookup(lookup) {
            Ok(u) => res == Ok::<u128, ServiceError>(u.id),
            Err(e) => res matches Err(e2) && spec_error_view(e2) == e,
        },
{
    match lookup_result(lookup) {
        Ok(u) => Ok(u.id),
        Err(e) => Err(e),
    }
}

/// What befriending comes to once the friend is known.
#[derive(Debug, PartialEq, Eq)]
pub enum FriendPlan {
    /// The friend is on the list already; the request is answered with this.
    AlreadyFriends(Reply),
    /// The account with its new friend list, to be stored under the documents this query
    /// selects.
    Update { query: String, account: User },
}

/// Befriends `friend` on the signed-in user's account: "Already has this friend" (200) when
/// the friend is on the list, otherwise the account with the friend added at the end of its
/// list, to be stored under the documents whose id is the session's identity.
pub fn plan_friendship(account: User, identity: &str, friend: u128) -> (plan: FriendPlan)
    ensures
        account.friend_list@.contains(friend) ==> (plan matches FriendPlan::AlreadyFriends(r)
            && spec_text_is(r, OK, "Already has this friend"@)),
        !account.friend_list@.contains(friend) ==> (plan matches FriendPlan::Update { query, account: a }
            && query@ == spec_user_search_query(identity@, UserSearchType::ById)
            && a.id == account.id && a.username == account.username && a.pw_hash == account.pw_hash
            && a.created_at == account.created_at
            && a.friend_list@ == spec_befriend(account.friend_list@, friend)),
{
    let mut account = account;
    if add_friend(&mut account.friend_list, friend) {
        FriendPlan::Update { query: user_search_query(identity, UserSearchType::ById), account }
    } else {
        FriendPlan::AlreadyFriends(text_reply(OK, "Already has this friend"))
    }
}

/// The answer to befriending, given what the search engine made of storing the new list:
/// the account without its password hash when stored, 401 when the engine refused, and an
/// internal error with an empty message when the request went unanswered.
pub fn befriended_reply(stored: WriteReply, account: User) -> (res: Result<Reply, ServiceError>)
    ensures
        match stored {
            WriteReply::Unsent => res matches Err(e) && spec_error_is(e, INTERNAL_SERVER_ERROR, Seq::empty()),
            WriteReply::Answered(status) => if spec_is_success(status) {
                res == Ok::<Reply, ServiceError>(Reply::Account(spec_public(account)))
            } else {
                res == Ok::<Reply, ServiceError>(Reply::Status(UNAUTHORIZED))
            },
        },
{
    match stored {
        WriteReply::Unsent => Err(ServiceError { status: INTERNAL_SERVER_ERROR, message: String::new() }),
        WriteReply::Answered(status) => if is_success(status) {
            Ok(Reply::Account(account.into_public()))
        } else {
            Ok(Reply::Status(UNAUTHORIZED))
        },
    }
}

} // verus!
