//! Listing a user's messages and posting new ones.
use vstd::prelude::*;
use vstd::string::*;
use crate::ids::{id_text, parse_id, spec_id_text, spec_is_random_id, uuid_text_value};
use crate::model::{Message, User};
use crate::reply::{spec_error_is, spec_error_view, spec_text_is, text_reply, Reply, ServiceError};
use crate::search::{
    lookup_result, parse_message_search, spec_lookup, spec_message_answer,
    spec_message_reply_complete, spec_user_reply_complete, spec_user_search_query,
    user_search_query, MessageSearchReply, UserSearchReply, UserSearchType, WriteReply,
};
use crate::status::{
    is_success, spec_is_success, INTERNAL_SERVER_ERROR, SERVICE_UNAVAILABLE,
};

verus! {

/// An optional time window for a message listing; either end may be open.
#[derive(Debug, Clone, PartialEq, Eq)]
pub struct DateSpan {
    pub date_start: Option<String>,
    pub date_end: Option<String>,
}

/// The text of an optional string.
pub open spec fn spec_opt_text(o: Option<String>) -> Option<Seq<char>> {
    match o {
        Some(s) => Some(s@),
        None => None,
    }
}

/// The query clause that restricts a listing to a time window (empty without a window, or
/// when the window has neither end).
pub open spec fn spec_date_filter(span: Option<DateSpan>) -> Seq<char> {
    match span {
        None => Seq::empty(),
        Some(d) => match (spec_opt_text(d.date_start), spec_opt_text(d.date_end)) {
            (Some(start), None) => "AND created_at:["@ + start + " TO now]"@,
            (None, Some(end)) => "AND created_at:[* TO "@ + end + "]"@,
            (Some(start), Some(end)) => "AND created_at:["@ + start + " TO "@ + end + "]"@,
            (None, None) => Seq::empty(),
        },
    }
}

/// Builds the time-window clause of a listing query.
pub fn date_filter(span: Option<DateSpan>) -> (f: String)
    ensures
        f@ == spec_date_filter(span),
{
    match span {
        None => String::new(),
        Some(d) => match (d.date_start, d.date_end) {
            (Some(start), None) => {
                let mut f = String::from_str("AND created_at:[");
                f.append(start.as_str());
                f.append(" TO now]");
                f
            },
            (None, Some(end)) => {
                let mut f = String::from_str("AND created_at:[* TO ");
                f.append(end.as_str());
                f.append("]");
                f
            },
            (Some(start), Some(end)) => {
                let mut f = String::from_str("AND created_at:[");
                f.append(start.as_str());
                f.append(" TO ");
                f.append(end.as_str());
                f.append("]");
                f
            },
            (None, None) => String::new(),
        },
    }
}

/// The query that lists the messages of `author`: `author_id:<author> <window clause>`.
pub open spec fn spec_message_query(author: Seq<char>, span: Option<DateSpan>) -> Seq<char> {
    "author_id:"@ + author + " "@ + spec_date_filter(span)
}

/// `text` ends with `suffix`.
pub open spec fn spec_ends_with(text: Seq<char>, suffix: Seq<char>) -> bool {
    suffix.len() <= text.len() && text.subrange(text.len() - suffix.len(), text.len() as int) == suffix
}

/// A listing query names its author first, then a window clause with every end the window
/// gives: both ends as `created_at:[<start> TO <end>]`, only an end as
/// `created_at:[* TO <end>]`, only a start as `created_at:[<start> TO now]`; without ends
/// there is no clause.
pub proof fn listing_query_names_the_window(author: Seq<char>, span: Option<DateSpan>)
    ensures
        spec_message_query(author, span).len() >= author.len() + 11,
        spec_message_query(author, span).subrange(0, author.len() as int + 11) == "author_id:"@ + author + " "@,
        match span {
            None => spec_message_query(author, span) == "author_id:"@ + author + " "@,
            Some(d) => match (spec_opt_text(d.date_start), spec_opt_text(d.date_end)) {
                (Some(start), Some(end)) => spec_ends_with(
                    spec_message_query(author, span),
                    "created_at:["@ + start + " TO "@ + end + "]"@,
                ),
                (None, Some(end)) => spec_ends_with(spec_message_query(author, span), "created_at:[* TO "@ + end + "]"@),
                (Some(start), None) => spec_ends_with(spec_message_query(author, span), "created_at:["@ + start + " TO now]"@),
                (None, None) => spec_message_query(author, span) == "author_id:"@ + author + " "@,
            },
        },
{
    reveal_strlit("author_id:");
    reveal_strlit(" ");
    reveal_strlit("AND created_at:[");
    reveal_strlit("AND created_at:[* TO ");
    reveal_strlit("created_at:[");
    reveal_strlit("created_at:[* TO ");
    let head = "author_id:"@ + author + " "@;
    let q = spec_message_query(author, span);
    let and = seq!['A', 'N', 'D', ' '];
    assert("AND created_at:["@ =~= and + "created_at:["@);
    assert("AND created_at:[* TO "@ =~= and + "created_at:[* TO "@);
    assert(q =~= head + spec_date_filter(span));
    assert(q.subrange(0, author.len() as int + 11) =~= head);
    match span {
        None => {
            assert(q =~= head);
        },
        Some(d) => match (spec_opt_text(d.date_start), spec_opt_text(d.date_end)) {
            (Some(start), Some(end)) => {
                let w = "created_at:["@ + start + " TO "@ + end + "]"@;
                assert(q =~= (head + and) + w);
                assert(q.subrange(q.len() - w.len(), q.len() as int) =~= w);
            },
            (None, Some(end)) => {
                let w = "created_at:[* TO "@ + end + "]"@;
                assert(q =~= (head + and) + w);
                assert(q.subrange(q.len() - w.len(), q.len() as int) =~= w);
            },
            (Some(start), None) => {
                let w = "created_at:["@ + start + " TO now]"@;
                assert(q =~= (head + and) + w);
                assert(q.subrange(q.len() - w.len(), q.len() as int) =~= w);
            },
            (None, None) => {
                assert(q =~= head);
            },
        },
    }
}

/// Builds the query that lists the messages of `author` within an optional time window.
pub fn message_search_query(author: &str, span: Option<DateSpan>) -> (q: String)
    ensures
        q@ == spec_message_query(author@, span),
        match span {
            Some(d) => match (spec_opt_text(d.date_start), spec_opt_text(d.date_end)) {
                (Some(start), Some(end)) => spec_ends_with(q@, "created_at:["@ + start + " TO "@ + end + "]"@),
                (None, Some(end)) => spec_ends_with(q@, "created_at:[* TO "@ + end + "]"@),
                (Some(start), None) => spec_ends_with(q@, "created_at:["@ + start + " TO now]"@),
                (None, None) => q@ == "author_id:"@ + author@ + " "@,
            },
            None => q@ == "author_id:"@ + author@ + " "@,
        },
{
    proof {
        listing_query_names_the_window(author@, span);
    }
    let mut q = String::from_str("author_id:");
    q.append(author);
    q.append(" ");
    let f = date_filter(span);
    q.append(f.as_str());
    q
}

/// How a listing request names its author.
#[derive(Debug, Clone, PartialEq, Eq)]
pub enum AuthorRef {
    /// The path is an identifier; it is used as written.
    Id(String),
    /// The path is a user name; the user is looked up with this query.
    Lookup(String),
}

/// The first step of a listing: a path that reads as an identifier names the author
/// directly, any other path is a user name to look up.
pub fn resolve_author(path: &str) -> (r: AuthorRef)
    ensures
        uuid_text_value(path@) is Some ==> (r matches AuthorRef::Id(a) && a@ == path@),
        uuid_text_value(path@) is None ==> (r matches AuthorRef::Lookup(q)
            && q@ == spec_user_search_query(path@, UserSearchType::ByName)),
{
    match parse_id(path) {
        Some(_) => AuthorRef::Id(String::from_str(path)),
        None => AuthorRef::Lookup(user_search_query(path, UserSearchType::ByName)),
    }
}

/// The author of a listing found by name: the identifier text of the user found, or the
/// lookup's error.
pub fn author_from_lookup(reply: UserSearchReply) -> (res: Result<String, ServiceError>)
    requires
        spec_user_reply_complete(reply),
    ensures
        match spec_lookup(reply) {
            Ok(u) => res matches Ok(a) && a@ == spec_id_text(u.id) && uuid_text_value(a@) == Some(u.id),
            Err(e) => res matches Err(e2) && spec_error_view(e2) == e,
        },
{
    match lookup_result(reply) {
        Ok(u) => Ok(id_text(u.id)),
        Err(e) => Err(e),
    }
}

/// Whose messages a listing shows: the path itself when it reads as an identifier,
/// otherwise the identifier text of the user that the lookup of the path as a name found
/// (or that lookup's error).
pub open spec fn spec_listing_author(path: Seq<char>, lookup: UserSearchReply) -> Result<Seq<char>, (u16, Seq<char>)> {
    if uuid_text_value(path) is Some {
        Ok(path)
    } else {
        match spec_lookup(lookup) {
            Ok(u) => Ok(spec_id_text(u.id)),
            Err(e) => Err(e),
        }
    }
}

/// Listing a user's messages by the identifier text that the service shows for the user
/// selects the same author as listing them by the user's name (whatever a lookup would
/// have answered, since none is made for an identifier). The requirement on the identifier
/// text is what `id_text` ensures of every text it makes.
pub proof fn listing_by_id_matches_listing_by_name(
    name: Seq<char>,
    by_name: UserSearchReply,
    user: User,
    by_id: UserSearchReply,
)
    requires
        uuid_text_value(name) is None,
        spec_lookup(by_name) == Ok::<User, (u16, Seq<char>)>(user),
        uuid_text_value(spec_id_text(user.id)) == Some(user.id),
    ensures
        spec_listing_author(spec_id_text(user.id), by_id) == spec_listing_author(name, by_name),
        spec_listing_author(name, by_name) == Ok::<Seq<char>, (u16, Seq<char>)>(spec_id_text(user.id)),
{
}

/// A listing of messages with its count.
#[derive(Debug, Clone, PartialEq, Eq)]
pub struct Listing<T> {
    pub count: usize,
    pub items: Vec<T>,
}

/// The outcome of a listing: an unsent search is an internal error, an answer is read by
/// `parse_message_search` and counted.
pub fn listing_result<T>(reply: MessageSearchReply<T>) -> (res: Result<Listing<T>, ServiceError>)
    requires
        spec_message_reply_complete(reply),
    ensures
        match reply {
            MessageSearchReply::Unsent => res matches Err(e) && spec_error_is(e, INTERNAL_SERVER_ERROR, Seq::empty()),
            MessageSearchReply::Answered { status, body } => match spec_message_answer(status, body) {
                Ok(items) => res matches Ok(l) && l.items@ == items && l.count == items.len(),
                Err(e) => res matches Err(e2) && spec_error_view(e2) == e,
            },
        },
{
    match reply {
        MessageSearchReply::Unsent => Err(ServiceError { status: INTERNAL_SERVER_ERROR, message: String::new() }),
        MessageSearchReply::Answered { status, body } => {
            match parse_message_search(status, body) {
                Ok(items) => Ok(Listing { count: items.len(), items }),
                Err(e) => Err(e),
            }
        },
    }
}

/// A new message from the signed-in user: `None` when the session's identity is not a user
/// identifier.
pub fn compose_message(identity: &str, text: String) -> (m: Option<Message>)
    ensures
        match uuid_text_value(identity@) {
            None => m is None,
            Some(author) => m matches Some(msg) && msg.author_id == author && msg.text == text
                && spec_is_random_id(msg.id),
        },
{
    match parse_id(identity) {
        Some(author) => Some(Message::new(author, text)),
        None => None,
    }
}

/// The answer to posting a message, given what the search engine made of storing it.
pub fn posted_reply(stored: WriteReply, message: Message) -> (r: Reply)
    ensures
        match stored {
            WriteReply::Unsent => r == Reply::Status(SERVICE_UNAVAILABLE),
            WriteReply::Answered(status) => if spec_is_success(status) {
                r == Reply::Posted(message)
            } else {
                spec_text_is(r, INTERNAL_SERVER_ERROR, "Failed to send message"@)
            },
        },
{
    match stored {
        WriteReply::Unsent => Reply::Status(SERVICE_UNAVAILABLE),
        WriteReply::Answered(status) => if is_success(status) {
            Reply::Posted(message)
        } else {
            text_reply(INTERNAL_SERVER_ERROR, "Failed to send message")
        },
    }
}

} // verus!
