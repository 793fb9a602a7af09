//! Registration, sign-in and account lookups.
use vstd::prelude::*;
use crate::ids::{id_text, spec_id_text, spec_is_random_id};
use crate::model::{spec_public, spec_utc_text, User};
use crate::password::{
    argon2_accepts, argon2_phc_hash, check_password, generate_salt, hash_password, phc_readable,
    spec_is_fresh_salt, stored_hash_readable,
};
use crate::reply::{spec_error_is, spec_error_view, spec_text_is, text_reply, Reply, ServiceError};
use crate::search::{lookup_result, spec_lookup, spec_user_reply_complete, UserSearchReply, WriteReply};
use crate::status::{is_success, spec_is_success, INTERNAL_SERVER_ERROR, NOT_FOUND, OK, UNAUTHORIZED};

verus! {

/// A new account for `username` whose password hash is made from `password` and `salt`;
/// `None` when hashing fails.
pub fn new_account(username: String, password: &str, salt: &str) -> (account: Option<User>)
    ensures
        match argon2_phc_hash(password@, salt@) {
            None => account is None,
            Some(h) => account matches Some(u) && u.username == username && u.pw_hash@ == h
                && u.friend_list@ == Seq::<u128>::empty() && spec_is_random_id(u.id)
                && spec_utc_text(u.created_at@),
        },
        account matches Some(u) ==> phc_readable(u.pw_hash@) && argon2_accepts(password@, u.pw_hash@),
{
    match hash_password(password, salt) {
        None => None,
        Some(h) => Some(User::new(username, h)),
    }
}

/// The account that a registration stores, given the lookup of its user name: a name that
/// is taken is answered "Already registered." (200), a failed lookup other than "not found"
/// is an internal error, and otherwise the password is hashed with a fresh salt (an
/// internal error if hashing fails).
pub fn register_account(lookup: UserSearchReply, username: String, password: &str) -> (res: Result<User, Reply>)
    requires
        spec_user_reply_complete(lookup),
    ensures
        match spec_lookup(lookup) {
            Ok(_) => res matches Err(r) && spec_text_is(r, OK, "Already registered."@),
            Err((status, _)) => if status != NOT_FOUND {
                res == Err::<User, Reply>(Reply::Status(INTERNAL_SERVER_ERROR))
            } else {
                match res {
                    Ok(u) => u.username == username && u.friend_list@ == Seq::<u128>::empty()
                        && spec_is_random_id(u.id) && spec_utc_text(u.created_at@)
                        && phc_readable(u.pw_hash@) && argon2_accepts(password@, u.pw_hash@)
                        && exists|salt: Seq<char>| spec_is_fresh_salt(salt)
                            && #[trigger] argon2_phc_hash(password@, salt) == Some(u.pw_hash@),
                    Err(r) => r == Reply::Status(INTERNAL_SERVER_ERROR)
                        && exists|salt: Seq<char>| spec_is_fresh_salt(salt)
                            && #[trigger] argon2_phc_hash(password@, salt) is None,
                }
            },
        },
{
    match lookup_result(lookup) {
        Ok(_) => Err(text_reply(OK, "Already registered.")),
        Err(e) => {
            if e.status != NOT_FOUND {
                return Err(Reply::Status(INTERNAL_SERVER_ERROR));
            }
            let salt = generate_salt();
            match new_account(username, password, salt.as_str()) {
                Some(u) => Ok(u),
                None => Err(Reply::Status(INTERNAL_SERVER_ERROR)),
            }
        },
    }
}

/// The answer to a registration, given what the search engine made of storing the account:
/// the account without its password hash when it was stored, 401 when the engine refused
/// it, and an internal error when the request went unanswered.
pub fn registered_reply(stored: WriteReply, account: User) -> (r: Reply)
    ensures
        match stored {
            WriteReply::Unsent => r == Reply::Status(INTERNAL_SERVER_ERROR),
            WriteReply::Answered(status) => if spec_is_success(status) {
                r == Reply::Account(spec_public(account))
            } else {
                r == Reply::Status(UNAUTHORIZED)
            },
        },
{
    match stored {
        WriteReply::Unsent => Reply::Status(INTERNAL_SERVER_ERROR),
        WriteReply::Answered(status) => if is_success(status) {
            Reply::Account(account.into_public())
        } else {
            Reply::Status(UNAUTHORIZED)
        },
    }
}

/// What a sign-in leads to.
#[derive(Debug, Clone, PartialEq, Eq)]
pub enum LoginStep {
    /// The request is answered with this error.
    Refused(ServiceError),
    /// The password matches: the session is to remember this user identifier text.
    SignIn(String),
    /// The stored password hash is not a PHC string.
    UnreadableHash,
}

/// What a sign-in leads to, as values.
pub enum LoginVerdict {
    Refused(u16, Seq<char>),
    SignIn(u128),
    UnreadableHash,
}

/// The outcome of signing in with `password` to an account whose stored hash is readable:
/// the account's identifier when Argon2 accepts the password, otherwise 401
/// "Invalid credentials.".
pub open spec fn spec_sign_in(account: User, password: Seq<char>) -> LoginVerdict {
    if argon2_accepts(password, account.pw_hash@) {
        LoginVerdict::SignIn(account.id)
    } else {
        LoginVerdict::Refused(UNAUTHORIZED, "Invalid credentials."@)
    }
}

/// The outcome of signing in with `password`, given the lookup of the user name: the
/// lookup's error, an unreadable stored hash, or `spec_sign_in` with the account found.
pub open spec fn spec_login(lookup: UserSearchReply, password: Seq<char>) -> LoginVerdict {
    match spec_lookup(lookup) {
        Err((status, message)) => LoginVerdict::Refused(status, message),
        Ok(u) => if !phc_readable(u.pw_hash@) {
            LoginVerdict::UnreadableHash
        } else {
            spec_sign_in(u, password)
        },
    }
}

/// `step` is the sign-in step that `verdict` describes.
pub open spec fn spec_login_step_is(step: LoginStep, verdict: LoginVerdict) -> bool {
    match verdict {
        LoginVerdict::Refused(status, message) => step matches LoginStep::Refused(e)
            && spec_error_is(e, status, message),
        LoginVerdict::SignIn(id) => step matches LoginStep::SignIn(t) && t@ == spec_id_text(id),
        LoginVerdict::UnreadableHash => step is UnreadableHash,
    }
}

/// Signs in with `password` to an account whose stored hash is a readable PHC string (a
/// stored hash that is not one cannot be checked at all): the identifier text for the
/// session when the password is accepted, otherwise 401 "Invalid credentials.".
pub fn sign_in(account: &User, password: &str) -> (res: Result<String, ServiceError>)
    requires
        phc_readable(account.pw_hash@),
    ensures
        match spec_sign_in(*account, password@) {
            LoginVerdict::SignIn(id) => res matches Ok(t) && t@ == spec_id_text(id),
            LoginVerdict::Refused(status, message) => res matches Err(e) && spec_error_is(e, status, message),
            LoginVerdict::UnreadableHash => false,
        },
{
    if check_password(password, account.pw_hash.as_str()) {
        Ok(id_text(account.id))
    } else {
        Err(ServiceError::new(UNAUTHORIZED, "Invalid credentials."))
    }
}

/// Checks a sign-in request against the account found by name: the lookup's error, or,
/// when the stored hash is readable, what `sign_in` answers; a stored hash that is not a
/// PHC string is reported as `UnreadableHash` and nothing is checked.
pub fn login_check(lookup: UserSearchReply, password: &str) -> (step: LoginStep)
    requires
        spec_user_reply_complete(lookup),
    ensures
        spec_login_step_is(step, spec_login(lookup, password@)),
{
    match lookup_result(lookup) {
        Err(e) => LoginStep::Refused(e),
        Ok(u) => if !stored_hash_readable(u.pw_hash.as_str()) {
            LoginStep::UnreadableHash
        } else {
            match sign_in(&u, password) {
                Ok(t) => LoginStep::SignIn(t),
                Err(e) => LoginStep::Refused(e),
            }
        },
    }
}

/// The answer to a sign-in once the session was asked to remember the user: 200, or an
/// internal error when the session could not take the identity.
pub fn signed_in_reply(remembered: bool) -> (res: Result<Reply, ServiceError>)
    ensures
        remembered ==> res == Ok::<Reply, ServiceError>(Reply::Status(OK)),
        !remembered ==> (res matches Err(e) && spec_error_is(e, INTERNAL_SERVER_ERROR, "Failed to make identity"@)),
{
    if remembered {
        Ok(Reply::Status(OK))
    } else {
        Err(ServiceError::new(INTERNAL_SERVER_ERROR, "Failed to make identity"))
    }
}

/// An account made at registration signs in with the password it was registered with:
/// once a lookup finds an account whose hash is readable and accepts the password (as
/// `register_account` ensures of the accounts it makes), signing in with that password
/// signs in as that account.
pub proof fn registered_password_signs_in(lookup: UserSearchReply, account: User, password: Seq<char>)
    requires
        spec_lookup(lookup) == Ok::<User, (u16, Seq<char>)>(account),
        phc_readable(account.pw_hash@),
        argon2_accepts(password, account.pw_hash@),
    ensures
        spec_login(lookup, password) == LoginVerdict::SignIn(account.id),
{
}

/// Signing in passes a failed lookup's error on unchanged, and refuses with 401
/// "Invalid credentials." a password that Argon2 does not accept against a readable
/// stored hash.
pub proof fn sign_in_refuses_unaccepted_password(lookup: UserSearchReply, password: Seq<char>)
    ensures
        spec_lookup(lookup) matches Err(e) ==> spec_login(lookup, password) == LoginVerdict::Refused(e.0, e.1),
        (spec_lookup(lookup) matches Ok(u) && phc_readable(u.pw_hash@) && !argon2_accepts(password, u.pw_hash@))
            ==> spec_login(lookup, password) == LoginVerdict::Refused(UNAUTHORIZED, "Invalid credentials."@),
        (spec_lookup(lookup) matches Ok(u) && !phc_readable(u.pw_hash@)) ==> spec_login(lookup, password) == LoginVerdict::UnreadableHash,
{
}

/// The answer to an account lookup by name: the account without its password hash, or the
/// lookup's error.
pub fn account_info(lookup: UserSearchReply) -> (res: Result<Reply, ServiceError>)
    requires
        spec_user_reply_complete(lookup),
    ensures
        match spec_lookup(lookup) {
            Ok(u) => res == Ok::<Reply, ServiceError>(Reply::Account(spec_public(u))),
            Err(e) => res matches Err(e2) && spec_error_view(e2) == e,
        },
{
    match lookup_result(lookup) {
        Ok(u) => Ok(Reply::Account(u.into_public())),
        Err(e) => Err(e),
    }
}

} // verus!
