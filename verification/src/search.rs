//! Queries sent to the search engine and the reading of its answers.
use vstd::prelude::*;
use vstd::string::*;
use crate::model::User;
use crate::reply::{spec_error_is, spec_error_view, spec_outcome, ServiceError};
use crate::status::{
    is_success, spec_is_status, spec_is_success, status_line, status_text, INTERNAL_SERVER_ERROR,
    NOT_FOUND, SERVICE_UNAVAILABLE,
};

verus! {

/// Which field of a stored user a lookup matches against.
#[derive(Debug, Clone, Copy, PartialEq, Eq)]
pub enum UserSearchType {
    ByName,
    ById,
}

/// The query string a user lookup sends: `username:<term>` or `id:<term>`.
pub open spec fn spec_user_search_query(term: Seq<char>, tag: UserSearchType) -> Seq<char> {
    match tag {
        UserSearchType::ByName => "username:"@ + term,
        UserSearchType::ById => "id:"@ + term,
    }
}

/// A user lookup's query is the field name, a colon and the term, exactly: `username:` for
/// a lookup by name, `id:` for one by identifier.
pub proof fn user_query_is_field_then_term(term: Seq<char>, tag: UserSearchType)
    ensures
        ({
            let field = match tag {
                UserSearchType::ByName => seq!['u', 's', 'e', 'r', 'n', 'a', 'm', 'e'],
                UserSearchType::ById => seq!['i', 'd'],
            };
            &&& spec_user_search_query(term, tag).len() == field.len() + 1 + term.len()
            &&& spec_user_search_query(term, tag).subrange(0, field.len() as int) == field
            &&& spec_user_search_query(term, tag)[field.len() as int] == ':'
            &&& spec_user_search_query(term, tag).subrange(field.len() as int + 1, spec_user_search_query(term, tag).len() as int) == term
        }),
{
    reveal_strlit("username:");
    reveal_strlit("id:");
    let q = spec_user_search_query(term, tag);
    match tag {
        UserSearchType::ByName => {
            assert(q.subrange(0, 8) =~= seq!['u', 's', 'e', 'r', 'n', 'a', 'm', 'e']);
            assert(q.subrange(9, q.len() as int) =~= term);
        },
        UserSearchType::ById => {
            assert(q.subrange(0, 2) =~= seq!['i', 'd']);
            assert(q.subrange(3, q.len() as int) =~= term);
        },
    }
}

/// Builds the query string of a user lookup.
pub fn user_search_query(term: &str, tag: UserSearchType) -> (q: String)
    ensures
        q@ == spec_user_search_query(term@, tag),
{
    let mut q = match tag {
        UserSearchType::ByName => String::from_str("username:"),
        UserSearchType::ById => String::from_str("id:"),
    };
    q.append(term);
    q
}

/// The body of an answer to a user search, as far as it is read.
#[derive(Debug, Clone, PartialEq, Eq)]
pub enum UserSearchBody {
    /// The body is not a JSON document; the parser's message.
    NotJson(String),
    /// A JSON document: `hits.total.value` read as an `i64`, and the `_source` of the first
    /// hit read as a user.
    Hits { total: Option<i64>, first: Option<User> },
}

/// What the search engine made of a user search.
#[derive(Debug, Clone, PartialEq, Eq)]
pub enum UserSearchReply {
    /// The request could not be sent or got no answer.
    Unsent,
    /// An answer with its status code and body.
    Answered { status: u16, body: UserSearchBody },
}

/// The body holds what a successful answer must hold: a hit count, and a user when the
/// count is not zero.
pub open spec fn spec_user_body_complete(status: u16, body: UserSearchBody) -> bool {
    spec_is_success(status) ==> match body {
        UserSearchBody::NotJson(_) => true,
        UserSearchBody::Hits { total, first } => total is Some && (total != Some(0i64)
            ==> first is Some),
    }
}

/// The answer's status and body meet what `parse_user_search` requires.
pub open spec fn spec_user_reply_complete(reply: UserSearchReply) -> bool {
    reply matches UserSearchReply::Answered { status, body } ==> spec_is_status(status)
        && spec_user_body_complete(status, body)
}

/// The message of the error that reports an unsuccessful answer of the search engine.
pub open spec fn spec_upstream_failure(status: u16) -> Seq<char> {
    "OS server returned: "@ + status_line(status)
}

/// The error that reports an unsuccessful answer of the search engine: 503 with the status.
pub fn upstream_failure(status: u16) -> (e: ServiceError)
    requires
        spec_is_status(status),
    ensures
        spec_error_is(e, SERVICE_UNAVAILABLE, spec_upstream_failure(status)),
{
    let mut message = String::from_str("OS server returned: ");
    let line = status_text(status);
    message.append(line.as_str());
    ServiceError { status: SERVICE_UNAVAILABLE, message }
}

/// What a user search answer amounts to: the user found, or the status and message of the
/// error to answer.
pub open spec fn spec_user_answer(status: u16, body: UserSearchBody) -> Result<User, (u16, Seq<char>)> {
    if !spec_is_success(status) {
        Err((SERVICE_UNAVAILABLE, spec_upstream_failure(status)))
    } else {
        match body {
            UserSearchBody::NotJson(m) => Err((INTERNAL_SERVER_ERROR, m@)),
            UserSearchBody::Hits { total, first } => if total == Some(0i64) {
                Err((NOT_FOUND, "User not found"@))
            } else {
                Ok(first.unwrap())
            },
        }
    }
}

/// Reads the answer to a user search: a failed status is reported as unavailable, an
/// unreadable body as an internal error, no hits as not found, and otherwise the first hit
/// is the user.
pub fn parse_user_search(status: u16, body: UserSearchBody) -> (res: Result<User, ServiceError>)
    requires
        spec_is_status(status),
        spec_user_body_complete(status, body),
    ensures
        spec_outcome(res) == spec_user_answer(status, body),
        spec_is_success(status) ==> match body {
            UserSearchBody::Hits { total, first } => total != Some(0i64) ==> res == Ok::<User, ServiceError>(first.unwrap()),
            UserSearchBody::NotJson(_) => true,
        },
        (res matches Err(e) && e.status == NOT_FOUND) ==> (spec_is_success(status)
            && (body matches UserSearchBody::Hits { total, .. } && total == Some(0i64))),
{
    proof {
        user_search_finds_first_hit(status, body);
    }
    if !is_success(status) {
        return Err(upstream_failure(status));
    }
    match body {
        UserSearchBody::NotJson(message) => Err(ServiceError { status: INTERNAL_SERVER_ERROR, message }),
        UserSearchBody::Hits { total, first } => {
            if total == Some(0i64) {
                Err(ServiceError::new(NOT_FOUND, "User not found"))
            } else {
                Ok(first.unwrap())
            }
        },
    }
}

/// A successful user search whose hit count is not zero gives the first hit's user, and
/// "not found" (404) is given only for a successful search that counts no hits; an
/// unsuccessful one is 503 with "OS server returned: " and the status text.
pub proof fn user_search_finds_first_hit(status: u16, body: UserSearchBody)
    ensures
        !spec_is_success(status) ==> (spec_user_answer(status, body) matches Err(e) && e.0 == SERVICE_UNAVAILABLE
            && e.1 == "OS server returned: "@ + status_line(status)),
        spec_is_success(status) ==> match body {
            UserSearchBody::Hits { total, first } => total != Some(0i64)
                ==> spec_user_answer(status, body) == Ok::<User, (u16, Seq<char>)>(first.unwrap()),
            UserSearchBody::NotJson(_) => true,
        },
        (spec_user_answer(status, body) matches Err(e) && e.0 == NOT_FOUND) ==> (spec_is_success(status)
            && (body matches UserSearchBody::Hits { total, .. } && total == Some(0i64))),
{
}

/// What a user lookup amounts to, given what the search engine made of it.
pub open spec fn spec_lookup(reply: UserSearchReply) -> Result<User, (u16, Seq<char>)> {
    match reply {
        UserSearchReply::Unsent => Err((INTERNAL_SERVER_ERROR, Seq::empty())),
        UserSearchReply::Answered { status, body } => spec_user_answer(status, body),
    }
}

/// An unsent lookup is an internal error with an empty message; an answered one is what
/// reading its answer gives.
pub proof fn lookup_reads_the_answer(reply: UserSearchReply)
    ensures
        reply is Unsent ==> spec_lookup(reply) == Err::<User, (u16, Seq<char>)>((INTERNAL_SERVER_ERROR, Seq::empty())),
        reply matches UserSearchReply::Answered { status, body } ==> spec_lookup(reply) == spec_user_answer(status, body),
{
}

/// The outcome of a user lookup: an unsent search is an internal error with an empty
/// message, an answer is read by `parse_user_search`.
pub fn lookup_result(reply: UserSearchReply) -> (res: Result<User, ServiceError>)
    requires
        spec_user_reply_complete(reply),
    ensures
        spec_outcome(res) == spec_lookup(reply),
{
    match reply {
        UserSearchReply::Unsent => Err(ServiceError { status: INTERNAL_SERVER_ERROR, message: String::new() }),
        UserSearchReply::Answered { status, body } => parse_user_search(status, body),
    }
}

/// The body of an answer to a message search, as far as it is read.
#[derive(Debug, Clone, PartialEq, Eq)]
pub struct MessageSearchBody<T> {
    /// `hits.total.value` read as a `u64`.
    pub total: Option<u64>,
    /// The hits, each as its `_source` document if it has one; `None` when `hits.hits` is
    /// not an array.
    pub sources: Option<Vec<Option<T>>>,
}

/// A successful answer's body holds a hit count and, when the count is not zero, the
/// `_source` of every hit.
pub open spec fn spec_message_body_complete<T>(status: u16, body: Option<MessageSearchBody<T>>) -> bool {
    spec_is_success(status) ==> match body {
        None => false,
        Some(b) => b.total is Some && (b.total != Some(0u64) ==> match b.sources {
            None => false,
            Some(v) => forall|i: int| 0 <= i < v@.len() ==> (#[trigger] v@[i]) is Some,
        }),
    }
}

/// The `_source` documents of the hits, in order.
pub open spec fn spec_sources<T>(v: Seq<Option<T>>) -> Seq<T> {
    v.map_values(|o: Option<T>| o.unwrap())
}

/// The documents taken out of hits that all have one are exactly as many as the hits, and
/// the i-th document is the `_source` of the i-th hit.
pub proof fn sources_match_hits<T>(v: Seq<Option<T>>)
    requires
        forall|i: int| 0 <= i < v.len() ==> (#[trigger] v[i]) is Some,
    ensures
        spec_sources(v).len() == v.len(),
        forall|i: int| 0 <= i < v.len() ==> Some(#[trigger] spec_sources(v)[i]) == v[i],
{
    assert forall|i: int| 0 <= i < v.len() implies Some(#[trigger] spec_sources(v)[i]) == v[i] by {
        assert(v[i] is Some);
    }
}

/// What a message search answer amounts to: the `_source` documents found, or the status
/// and message of the error to answer.
pub open spec fn spec_message_answer<T>(status: u16, body: Option<MessageSearchBody<T>>) -> Result<Seq<T>, (u16, Seq<char>)> {
    if !spec_is_success(status) {
        Err((SERVICE_UNAVAILABLE, spec_upstream_failure(status)))
    } else if body.unwrap().total == Some(0u64) {
        Ok(Seq::empty())
    } else {
        Ok(spec_sources(body.unwrap().sources.unwrap()@))
    }
}

/// A result holding a vector, with the vector taken as a sequence and the error as values.
pub open spec fn spec_list_outcome<T>(r: Result<Vec<T>, ServiceError>) -> Result<Seq<T>, (u16, Seq<char>)> {
    match r {
        Ok(v) => Ok(v@),
        Err(e) => Err(spec_error_view(e)),
    }
}

/// A successful message search lists the `_source` of every hit, in order and nothing
/// else, unless its hit count is zero, when it lists nothing; only an unsuccessful one is
/// an error.
pub proof fn message_search_lists_every_hit<T>(status: u16, body: Option<MessageSearchBody<T>>)
    requires
        spec_message_body_complete(status, body),
    ensures
        spec_message_answer(status, body) is Err <==> !spec_is_success(status),
        spec_is_success(status) && body.unwrap().total == Some(0u64)
            ==> spec_message_answer(status, body) == Ok::<Seq<T>, (u16, Seq<char>)>(Seq::empty()),
        spec_is_success(status) && body.unwrap().total != Some(0u64) ==> (spec_message_answer(status, body) matches Ok(found)
            && found.len() == body.unwrap().sources.unwrap()@.len()
            && forall|i: int| 0 <= i < found.len() ==> Some(#[trigger] found[i]) == body.unwrap().sources.unwrap()@[i]),
{
    if spec_is_success(status) && body.unwrap().total != Some(0u64) {
        sources_match_hits(body.unwrap().sources.unwrap()@);
    }
}

/// Takes the documents out of hits that all have one.
fn unwrap_sources<T>(v: Vec<Option<T>>) -> (out: Vec<T>)
    requires
        forall|i: int| 0 <= i < v@.len() ==> (#[trigger] v@[i]) is Some,
    ensures
        out@ == spec_sources(v@),
        out@.len() == v@.len(),
        forall|i: int| 0 <= i < v@.len() ==> Some(#[trigger] out@[i]) == v@[i],
{
    proof {
        sources_match_hits(v@);
    }
    let ghost whole = v@;
    let mut out: Vec<T> = Vec::new();
    for item in it: v
        invariant
            it.seq() == whole,
            forall|i: int| 0 <= i < whole.len() ==> (#[trigger] whole[i]) is Some,
            out@ == spec_sources(whole.take(it.index() as int)),
    {
        proof {
            assert(whole.take(it.index() + 1) =~= whole.take(it.index() as int).push(item));
        }
        out.push(item.unwrap());
    }
    proof {
        assert(whole.take(whole.len() as int) =~= whole);
    }
    out
}

/// Reads the answer to a message search: a failed status is reported as unavailable, no
/// hits give an empty list, and otherwise the `_source` of each hit, in order.
pub fn parse_message_search<T>(status: u16, body: Option<MessageSearchBody<T>>) -> (res: Result<Vec<T>, ServiceError>)
    requires
        spec_is_status(status),
        spec_message_body_complete(status, body),
    ensures
        spec_list_outcome(res) == spec_message_answer(status, body),
        res is Err <==> !spec_is_success(status),
        spec_is_success(status) && body.unwrap().total == Some(0u64) ==> (res matches Ok(found) && found@.len() == 0),
        spec_is_success(status) && body.unwrap().total != Some(0u64) ==> (res matches Ok(found)
            && found@.len() == body.unwrap().sources.unwrap()@.len()
            && forall|i: int| 0 <= i < found@.len() ==> Some(#[trigger] found@[i]) == body.unwrap().sources.unwrap()@[i]),
{
    proof {
        message_search_lists_every_hit(status, body);
    }
    if !is_success(status) {
        return Err(upstream_failure(status));
    }
    let body = body.unwrap();
    if body.total == Some(0u64) {
        Ok(Vec::new())
    } else {
        Ok(unwrap_sources(body.sources.unwrap()))
    }
}

/// What the search engine made of a message search.
#[derive(Debug, Clone, PartialEq, Eq)]
pub enum MessageSearchReply<T> {
    /// The request could not be sent or got no answer.
    Unsent,
    /// An answer with its status code and body.
    Answered { status: u16, body: Option<MessageSearchBody<T>> },
}

/// The answer's status and body meet what `parse_message_search` requires.
pub open spec fn spec_message_reply_complete<T>(reply: MessageSearchReply<T>) -> bool {
    reply matches MessageSearchReply::Answered { status, body } ==> spec_is_status(status)
        && spec_message_body_complete(status, body)
}

/// What the search engine made of a request that stores or updates documents.
#[derive(Debug, Clone, Copy, PartialEq, Eq)]
pub enum WriteReply {
    /// The request could not be sent or got no answer.
    Unsent,
    /// An answer with its status code.
    Answered(u16),
}

} // verus!
