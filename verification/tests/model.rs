use es_cheaper::migrations::{index_missing, MESSAGES_INDEX, USERS_INDEX};
use es_cheaper::model::{Message, User};
use es_cheaper::reply::ServiceError;
use es_cheaper::tools::{lookup_outcome, lookup_query, UserHits};

fn grace() -> User {
    User {
        id: 42,
        username: "grace".to_string(),
        pw_hash: "h".to_string(),
        created_at: "2024-01-01T00:00:00+00:00".to_string(),
        friend_list: vec![1, 2],
    }
}

#[test]
fn new_user_has_no_friends_and_utc_time() {
    let u = User::new("grace".to_string(), "hash".to_string());
    assert_eq!(u.username, "grace");
    assert_eq!(u.pw_hash, "hash");
    assert!(u.friend_list.is_empty());
    assert!(u.created_at.ends_with("+00:00"));
    assert_eq!(u.id & 0xf000_c000_0000_0000_0000, 0x4000_8000_0000_0000_0000);
}

#[test]
fn public_view_keeps_all_but_the_hash() {
    let p = grace().into_public();
    assert_eq!(p.id, 42);
    assert_eq!(p.username, "grace");
    assert_eq!(p.created_at, "2024-01-01T00:00:00+00:00");
    assert_eq!(p.friend_list, vec![1, 2]);
}

#[test]
fn new_message_keeps_author_and_text() {
    let m = Message::new(42, "hello".to_string());
    assert_eq!(m.author_id, 42);
    assert_eq!(m.text, "hello");
    assert_ne!(Message::new(42, String::new()).id, m.id);
}

#[test]
fn plain_lookup_reads_hits() {
    assert_eq!(lookup_query("grace"), "username:grace");
    assert_eq!(lookup_outcome(None), Err(ServiceError { status: 500, message: String::new() }));
    assert_eq!(
        lookup_outcome(Some(UserHits { total: 0, first: None })),
        Err(ServiceError { status: 404, message: "User not found".to_string() })
    );
    assert_eq!(lookup_outcome(Some(UserHits { total: 2, first: Some(grace()) })), Ok(grace()));
}

#[test]
fn indices_are_created_unless_present() {
    assert!(!index_missing(200));
    assert!(index_missing(404));
    assert!(index_missing(500));
    assert_eq!(USERS_INDEX, "users");
    assert_eq!(MESSAGES_INDEX, "messages");
}

#[test]
fn account_from_parts_keeps_them() {
    let u = User::from_parts(42, "grace".to_string(), "h".to_string(), "2024-01-01T00:00:00+00:00".to_string());
    assert_eq!(u, User { friend_list: vec![], ..grace() });
}
