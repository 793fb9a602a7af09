//! Password hashing with Argon2, in PHC string form.
use vstd::prelude::*;
use argon2::PasswordVerifier;

verus! {

/// A character of the standard Base64 alphabet (letters, digits, `+` and `/`).
pub open spec fn spec_is_b64_char(c: char) -> bool {
    ('A' <= c <= 'Z') || ('a' <= c <= 'z') || ('0' <= c <= '9') || c == '+' || c == '/'
}

/// A salt as `SaltString::generate` makes them: 16 random bytes in unpadded Base64, which is
/// 22 characters.
pub open spec fn spec_is_fresh_salt(salt: Seq<char>) -> bool {
    salt.len() == 22 && forall|i: int| 0 <= i < salt.len() ==> spec_is_b64_char(#[trigger] salt[i])
}

/// The PHC string that `PasswordHash::generate` makes with the default Argon2 instance from
/// a password and a Base64 salt, if it makes one.
pub uninterp spec fn argon2_phc_hash(password: Seq<char>, salt: Seq<char>) -> Option<Seq<char>>;

/// Whether `PasswordHash::new` reads a text as a password hash in PHC string form.
pub uninterp spec fn phc_readable(phc: Seq<char>) -> bool;

/// Whether the default Argon2 instance accepts a password against a readable PHC string.
pub uninterp spec fn argon2_accepts(password: Seq<char>, phc: Seq<char>) -> bool;

/// A fresh random salt.
///
/// Calls `password_hash::SaltString::generate` with the operating system's random number
/// generator. Claims only what holds of every outcome: 22 characters of the standard
/// Base64 alphabet (16 bytes, unpadded).
#[verifier::external_body]
pub(crate) fn generate_salt() -> (salt: String)
    ensures
        spec_is_fresh_salt(salt@),
{
    argon2::password_hash::SaltString::generate(&mut argon2::password_hash::rand_core::OsRng).as_str().to_string()
}

/// Hashes a password with the default Argon2 instance and a Base64 salt, giving the PHC
/// string.
///
/// Calls `password_hash::Salt::from_b64` and `PasswordHash::generate` with
/// `argon2::Argon2::default()`, and displays the hash. The result is named
/// `argon2_phc_hash`; the contract adds the facts that the argon2 crate documents as its
/// use: the hash it made reads back as a PHC string, and checking the same password
/// against it succeeds.
#[verifier::external_body]
pub(crate) fn hash_password(password: &str, salt: &str) -> (hash: Option<String>)
    ensures
        match hash {
            Some(h) => argon2_phc_hash(password@, salt@) == Some(h@),
            None => argon2_phc_hash(password@, salt@) is None,
        },
        hash matches Some(h) ==> phc_readable(h@) && argon2_accepts(password@, h@),
{
    match argon2::password_hash::Salt::from_b64(salt) {
        Err(_) => None,
        Ok(s) => match argon2::PasswordHash::generate(argon2::Argon2::default(), password, s) {
            Ok(h) => Some(h.to_string()),
            Err(_) => None,
        },
    }
}

/// Whether a stored text is a password hash in PHC string form.
///
/// Calls `PasswordHash::new`; the result is named `phc_readable`.
#[verifier::external_body]
pub(crate) fn stored_hash_readable(phc: &str) -> (readable: bool)
    ensures
        readable == phc_readable(phc@),
{
    argon2::PasswordHash::new(phc).is_ok()
}

/// Checks a password against a readable stored PHC string with the default Argon2 instance.
///
/// Calls `PasswordVerifier::verify_password` of `argon2::Argon2::default()`, on the hash
/// that `PasswordHash::new` reads from the text (which the `requires` makes succeed). The
/// result is named `argon2_accepts`.
#[verifier::external_body]
pub(crate) fn check_password(password: &str, phc: &str) -> (accepted: bool)
    requires
        phc_readable(phc@),
    ensures
        accepted == argon2_accepts(password@, phc@),
{
    let hash = argon2::PasswordHash::new(phc).expect("a readable PHC string");
    argon2::Argon2::default().verify_password(password.as_bytes(), &hash).is_ok()
}

} // verus!
