//! The stored documents: user accounts and messages, and the account view that replies show.
use vstd::prelude::*;
use crate::clock::{now, now_rfc3339};
use crate::ids::{new_random_id, spec_is_random_id};

verus! {

/// A user account as the `users` index stores it.
#[derive(Debug, Clone, PartialEq, Eq)]
pub struct User {
    pub id: u128,
    pub username: String,
    /// The password hash in PHC string form.
    pub pw_hash: String,
    /// Creation time, RFC 3339 text in UTC.
    pub created_at: String,
    /// Identifiers of the users this one has befriended, in the order they were added.
    pub friend_list: Vec<u128>,
}

/// A user account as replies show it: every field but the password hash.
#[derive(Debug, Clone, PartialEq, Eq)]
pub struct PublicUser {
    pub id: u128,
    pub username: String,
    pub created_at: String,
    pub friend_list: Vec<u128>,
}

/// A message as the `messages` index stores it.
#[derive(Debug, PartialEq, Eq)]
pub struct Message {
    pub id: u128,
    pub author_id: u128,
    pub created_at: std::time::SystemTime,
    pub text: String,
}

/// The public view of an account: the account without its password hash.
pub open spec fn spec_public(u: User) -> PublicUser {
    PublicUser { id: u.id, username: u.username, created_at: u.created_at, friend_list: u.friend_list }
}

/// The public view of an account keeps its identifier, name, creation time and friend list
/// as they are; only the password hash is left out.
pub proof fn public_view_keeps_all_but_the_hash(u: User)
    ensures
        spec_public(u).id == u.id,
        spec_public(u).username == u.username,
        spec_public(u).created_at == u.created_at,
        spec_public(u).friend_list == u.friend_list,
{
}

/// `text` ends with the UTC offset `+00:00`.
pub open spec fn spec_utc_text(text: Seq<char>) -> bool {
    &&& text.len() >= 6
    &&& text.subrange(text.len() - 6, text.len() as int) == seq!['+', '0', '0', ':', '0', '0']
}

impl User {
    /// An account with the given identifier, name, password hash and creation time, and no
    /// friends.
    pub fn from_parts(id: u128, username: String, password_hash: String, created_at: String) -> (u: User)
        ensures
            u.id == id,
            u.username == username,
            u.pw_hash == password_hash,
            u.created_at == created_at,
            u.friend_list@ == Seq::<u128>::empty(),
    {
        User { id, username, pw_hash: password_hash, created_at, friend_list: Vec::new() }
    }

    /// A new account: `from_parts` with a fresh random identifier and the current time in
    /// UTC as RFC 3339 text.
    pub fn new(username: String, password_hash: String) -> (u: User)
        ensures
            u.username == username,
            u.pw_hash == password_hash,
            u.friend_list@ == Seq::<u128>::empty(),
            spec_is_random_id(u.id),
            spec_utc_text(u.created_at@),
    {
        let id = new_random_id();
        let created_at = now_rfc3339();
        User::from_parts(id, username, password_hash, created_at)
    }

    /// The account as replies show it, without the password hash.
    pub fn into_public(self) -> (p: PublicUser)
        ensures
            p == spec_public(self),
    {
        PublicUser {
            id: self.id,
            username: self.username,
            created_at: self.created_at,
            friend_list: self.friend_list,
        }
    }
}

impl Message {
    /// A new message by `author_id` with a fresh random identifier, stamped with the current
    /// time.
    pub fn new(author_id: u128, text: String) -> (m: Message)
        ensures
            m.author_id == author_id,
            m.text == text,
            spec_is_random_id(m.id),
    {
        Message { id: new_random_id(), author_id, created_at: now(), text }
    }
}

} // verus!
