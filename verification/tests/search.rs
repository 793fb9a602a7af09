use es_cheaper::model::User;
use es_cheaper::reply::ServiceError;
use es_cheaper::search::{
    lookup_result, parse_message_search, parse_user_search, user_search_query, MessageSearchBody,
    UserSearchBody, UserSearchReply, UserSearchType,
};
use es_cheaper::status::is_success;

fn sample_user() -> User {
    User {
        id: 0x550e8400_e29b_41d4_a716_446655440000,
        username: "alice".to_string(),
        pw_hash: "$argon2id$v=19$m=19456,t=2,p=1$c2FsdHNhbHQ$aGFzaA".to_string(),
        created_at: "2024-01-01T00:00:00+00:00".to_string(),
        friend_list: vec![],
    }
}

fn err(status: u16, message: &str) -> ServiceError {
    ServiceError { status, message: message.to_string() }
}

#[test]
fn user_query_by_name_and_by_id() {
    assert_eq!(user_search_query("alice", UserSearchType::ByName), "username:alice");
    assert_eq!(user_search_query("1234", UserSearchType::ById), "id:1234");
    assert_eq!(user_search_query("", UserSearchType::ByName), "username:");
}

#[test]
fn success_is_the_2xx_range() {
    assert!(!is_success(199));
    assert!(is_success(200));
    assert!(is_success(204));
    assert!(is_success(299));
    assert!(!is_success(300));
    assert!(!is_success(404));
}

#[test]
fn unsuccessful_status_is_reported_with_its_text() {
    let body = || UserSearchBody::Hits { total: None, first: None };
    assert_eq!(parse_user_search(503, body()), Err(err(503, "OS server returned: 503 Service Unavailable")));
    assert_eq!(parse_user_search(404, body()), Err(err(503, "OS server returned: 404 Not Found")));
    assert_eq!(parse_user_search(999, body()), Err(err(503, "OS server returned: 999 <unknown status code>")));
}

#[test]
fn failed_user_search_is_unavailable() {
    let body = UserSearchBody::Hits { total: None, first: None };
    let res = parse_user_search(500, body);
    assert_eq!(res, Err(err(503, "OS server returned: 500 Internal Server Error")));
}

#[test]
fn unreadable_user_search_is_internal_error() {
    let res = parse_user_search(200, UserSearchBody::NotJson("expected value at line 1".to_string()));
    assert_eq!(res, Err(err(500, "expected value at line 1")));
}

#[test]
fn user_search_without_hits_is_not_found() {
    let res = parse_user_search(200, UserSearchBody::Hits { total: Some(0), first: None });
    assert_eq!(res, Err(err(404, "User not found")));
}

#[test]
fn user_search_gives_first_hit() {
    let res = parse_user_search(200, UserSearchBody::Hits { total: Some(3), first: Some(sample_user()) });
    assert_eq!(res, Ok(sample_user()));
}

#[test]
fn unsent_lookup_is_internal_error() {
    assert_eq!(lookup_result(UserSearchReply::Unsent), Err(err(500, "")));
    let found = lookup_result(UserSearchReply::Answered {
        status: 200,
        body: UserSearchBody::Hits { total: Some(1), first: Some(sample_user()) },
    });
    assert_eq!(found, Ok(sample_user()));
}

#[test]
fn message_search_without_hits_is_empty() {
    let body: MessageSearchBody<String> = MessageSearchBody { total: Some(0), sources: None };
    assert_eq!(parse_message_search(200, Some(body)), Ok(Vec::<String>::new()));
}

#[test]
fn message_search_gives_sources_in_order() {
    let body = MessageSearchBody {
        total: Some(2),
        sources: Some(vec![Some("first".to_string()), Some("second".to_string())]),
    };
    assert_eq!(
        parse_message_search(201, Some(body)),
        Ok(vec!["first".to_string(), "second".to_string()])
    );
}

#[test]
fn failed_message_search_is_unavailable() {
    let res = parse_message_search::<String>(404, None);
    assert_eq!(res, Err(err(503, "OS server returned: 404 Not Found")));
}
