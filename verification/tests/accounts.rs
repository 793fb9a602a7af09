use es_cheaper::accounts::{
    sign_in, account_info, login_check, new_account, register_account, registered_reply, signed_in_reply,
    LoginStep,
};
use es_cheaper::model::{PublicUser, User};
use es_cheaper::reply::{Reply, ServiceError};
use es_cheaper::search::{UserSearchBody, UserSearchReply, WriteReply};

fn id_text(id: u128) -> String {
    let hex = format!("{id:032x}");
    format!("{}-{}-{}-{}-{}", &hex[0..8], &hex[8..12], &hex[12..16], &hex[16..20], &hex[20..32])
}

const BOB: u128 = 0x9f0c_2a3e_1b4d_4c5e_8f60_7a8b_9cad_bef0;

fn found(user: User) -> UserSearchReply {
    UserSearchReply::Answered { status: 200, body: UserSearchBody::Hits { total: Some(1), first: Some(user) } }
}

fn not_found() -> UserSearchReply {
    UserSearchReply::Answered { status: 200, body: UserSearchBody::Hits { total: Some(0), first: None } }
}

fn bob_with_hash(pw_hash: &str) -> User {
    User {
        id: BOB,
        username: "bob".to_string(),
        pw_hash: pw_hash.to_string(),
        created_at: "2024-01-01T00:00:00+00:00".to_string(),
        friend_list: vec![7],
    }
}

#[test]
fn new_account_hash_is_argon2_with_the_salt() {
    let salt = "c2FsdHNhbHRzYWx0c2FsdA";
    let account = new_account("carol".to_string(), "pw", salt).unwrap();
    assert_eq!(account.username, "carol");
    assert!(account.friend_list.is_empty());
    assert!(account.created_at.ends_with("+00:00"));
    assert!(account.pw_hash.starts_with("$argon2id$v=19$"));
    assert!(account.pw_hash.contains(&format!("${salt}$")));
    let again = new_account("carol".to_string(), "pw", salt).unwrap();
    assert_eq!(again.pw_hash, account.pw_hash);
    assert_ne!(again.id, account.id);
}

#[test]
fn new_account_hash_accepts_its_password_only() {
    let account = new_account("carol".to_string(), "hunter2", "c2FsdHNhbHRzYWx0c2FsdA").unwrap();
    let id = account.id;
    assert_eq!(login_check(found(account.clone()), "hunter2"), LoginStep::SignIn(id_text(id)));
    assert_eq!(
        login_check(found(account), "hunter3"),
        LoginStep::Refused(ServiceError { status: 401, message: "Invalid credentials.".to_string() })
    );
}

#[test]
fn unusable_salt_gives_no_account() {
    assert_eq!(new_account("carol".to_string(), "pw", "abc"), None);
}

#[test]
fn registrations_use_fresh_salts() {
    let a = register_account(not_found(), "kim".to_string(), "same").unwrap();
    let b = register_account(not_found(), "kim".to_string(), "same").unwrap();
    assert_ne!(a.pw_hash, b.pw_hash);
    let salt = a.pw_hash.rsplit('$').nth(1).unwrap().to_string();
    assert_eq!(salt.len(), 22);
    assert!(salt.chars().all(|c| c.is_ascii_alphanumeric() || c == '+' || c == '/'));
}

#[test]
fn taken_name_is_already_registered() {
    let res = register_account(found(bob_with_hash("x")), "bob".to_string(), "pw");
    assert_eq!(res, Err(Reply::Text(200, "Already registered.".to_string())));
}

#[test]
fn failed_lookup_stops_registration() {
    let reply = UserSearchReply::Answered { status: 502, body: UserSearchBody::NotJson(String::new()) };
    assert_eq!(register_account(reply, "bob".to_string(), "pw"), Err(Reply::Status(500)));
    assert_eq!(register_account(UserSearchReply::Unsent, "bob".to_string(), "pw"), Err(Reply::Status(500)));
}

#[test]
fn registered_account_signs_in_with_its_password() {
    let account = register_account(not_found(), "dave".to_string(), "s3cret").unwrap();
    assert_eq!(account.username, "dave");
    let id = account.id;
    let step = login_check(found(account.clone()), "s3cret");
    assert_eq!(step, LoginStep::SignIn(id_text(id)));
    let wrong = login_check(found(account), "secret");
    assert_eq!(wrong, LoginStep::Refused(ServiceError { status: 401, message: "Invalid credentials.".to_string() }));
}

#[test]
fn login_passes_lookup_errors_on() {
    let step = login_check(not_found(), "pw");
    assert_eq!(step, LoginStep::Refused(ServiceError { status: 404, message: "User not found".to_string() }));
    assert_eq!(login_check(found(bob_with_hash("plain text")), "pw"), LoginStep::UnreadableHash);
    assert_eq!(login_check(found(bob_with_hash("")), "pw"), LoginStep::UnreadableHash);
}

#[test]
fn registration_answers_each_store_outcome() {
    let public = PublicUser {
        id: BOB,
        username: "bob".to_string(),
        created_at: "2024-01-01T00:00:00+00:00".to_string(),
        friend_list: vec![7],
    };
    assert_eq!(registered_reply(WriteReply::Answered(201), bob_with_hash("h")), Reply::Account(public));
    assert_eq!(registered_reply(WriteReply::Answered(409), bob_with_hash("h")), Reply::Status(401));
    assert_eq!(registered_reply(WriteReply::Unsent, bob_with_hash("h")), Reply::Status(500));
}

#[test]
fn session_outcome_answers_sign_in() {
    assert_eq!(signed_in_reply(true), Ok(Reply::Status(200)));
    assert_eq!(
        signed_in_reply(false),
        Err(ServiceError { status: 500, message: "Failed to make identity".to_string() })
    );
}

#[test]
fn account_info_hides_the_hash() {
    let reply = account_info(found(bob_with_hash("secret hash"))).unwrap();
    match reply {
        Reply::Account(p) => {
            assert_eq!(p.id, BOB);
            assert_eq!(p.username, "bob");
            assert_eq!(p.friend_list, vec![7]);
        },
        other => panic!("unexpected {:?}", other),
    }
    assert_eq!(
        account_info(not_found()),
        Err(ServiceError { status: 404, message: "User not found".to_string() })
    );
}

#[test]
fn sign_in_checks_a_readable_hash() {
    let account = new_account("lena".to_string(), "pw1", "c2FsdHNhbHRzYWx0c2FsdA").unwrap();
    assert_eq!(sign_in(&account, "pw1"), Ok(id_text(account.id)));
    assert_eq!(
        sign_in(&account, "pw2"),
        Err(ServiceError { status: 401, message: "Invalid credentials.".to_string() })
    );
}
