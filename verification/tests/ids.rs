use es_cheaper::friends::{friend_request, FriendRef};
use es_cheaper::messaging::{author_from_lookup, resolve_author, AuthorRef};
use es_cheaper::model::{Message, User};
use es_cheaper::search::{UserSearchBody, UserSearchReply};

const SAMPLE: u128 = 0x550e8400_e29b_41d4_a716_446655440000;

fn user_with_id(id: u128) -> User {
    User {
        id,
        username: "heidi".to_string(),
        pw_hash: String::new(),
        created_at: String::new(),
        friend_list: vec![],
    }
}

fn found(user: User) -> UserSearchReply {
    UserSearchReply::Answered { status: 200, body: UserSearchBody::Hits { total: Some(1), first: Some(user) } }
}

fn id_text_of(id: u128) -> String {
    author_from_lookup(found(user_with_id(id))).unwrap()
}

fn friend_named(text: &str) -> FriendRef {
    friend_request(found(user_with_id(1)), text).unwrap().1
}

#[test]
fn id_text_is_hyphenated_lowercase() {
    assert_eq!(id_text_of(SAMPLE), "550e8400-e29b-41d4-a716-446655440000");
    assert_eq!(id_text_of(0), "00000000-0000-0000-0000-000000000000");
    assert_eq!(id_text_of(u128::MAX), "ffffffff-ffff-ffff-ffff-ffffffffffff");
}

#[test]
fn id_text_reads_back() {
    let fresh = User::new("ivan".to_string(), String::new()).id;
    for id in [0u128, 1, SAMPLE, u128::MAX, fresh] {
        let text = id_text_of(id);
        assert_eq!(resolve_author(&text), AuthorRef::Id(text.clone()));
        assert_eq!(friend_named(&text), FriendRef::Known(id));
    }
}

#[test]
fn identifiers_are_read_in_the_four_forms() {
    assert_eq!(friend_named("550e8400e29b41d4a716446655440000"), FriendRef::Known(SAMPLE));
    assert_eq!(friend_named("550E8400-E29B-41D4-A716-446655440000"), FriendRef::Known(SAMPLE));
    assert_eq!(friend_named("{550e8400-e29b-41d4-a716-446655440000}"), FriendRef::Known(SAMPLE));
    assert_eq!(friend_named("urn:uuid:550e8400-e29b-41d4-a716-446655440000"), FriendRef::Known(SAMPLE));
}

#[test]
fn names_are_not_identifiers() {
    assert_eq!(friend_named("alice"), FriendRef::Lookup("username:alice".to_string()));
    assert_eq!(friend_named(""), FriendRef::Lookup("username:".to_string()));
    let bad = "550e8400-e29b-41d4-a716-44665544000g";
    assert_eq!(friend_named(bad), FriendRef::Lookup(format!("username:{bad}")));
    assert_eq!(resolve_author(bad), AuthorRef::Lookup(format!("username:{bad}")));
}

#[test]
fn fresh_ids_are_random_version_four() {
    for _ in 0..32 {
        let id = User::new("judy".to_string(), String::new()).id;
        assert_eq!(id & 0xf000_c000_0000_0000_0000, 0x4000_8000_0000_0000_0000);
        let m = Message::new(id, String::new()).id;
        assert_eq!(m & 0xf000_c000_0000_0000_0000, 0x4000_8000_0000_0000_0000);
        assert_ne!(id, m);
    }
}
