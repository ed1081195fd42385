use vstd::prelude::*;

use crate::db::database::{rows_of, DatabaseAction, MessageAction, Outcome};
use crate::entity::message::{self, MessageRow};
use crate::graphql::id::{decimal_text, id_parse, id_text, parse_id};
use crate::graphql::types::{Message, User};
use crate::time::{parse_error_text, parse_rfc3339, rfc3339_instant};

verus! {

/// What a mutation reports when it went through.
#[derive(Clone, Debug, PartialEq, Eq)]
pub struct MutationResponse {
    pub success: bool,
    pub message: String,
}

/// `shown` is how the API shows the message row `m`.
pub open spec fn shows_message(shown: Message, m: MessageRow) -> bool {
    &&& shown.id@ == decimal_text(m.id as int)
    &&& shown.user_id@ == decimal_text(m.user_id as int)
    &&& shown.content@ == m.content
    &&& shown.created_at == m.created_at
    &&& shown.updated_at == m.updated_at
    &&& shown.parent_id == m.parent_id
}

/// Shows a message row through the API.
pub fn message_object(m: message::Model) -> (r: Message)
    ensures
        shows_message(r, m@),
{
    Message {
        id: id_text(m.id),
        user_id: id_text(m.user_id),
        content: m.content,
        created_at: m.created_at,
        updated_at: m.updated_at,
        parent_id: m.parent_id,
    }
}

/// The answer to a query for one user.
pub fn user_result(result: DatabaseAction) -> (r: Result<User, String>)
    ensures
        match result@ {
            Outcome::User(u) => r matches Ok(shown) && shown.id@ == decimal_text(u.id as int)
                && shown.name@ == u.name,
            Outcome::Failure(msg) => r matches Err(e) && e@ == msg,
            _ => r matches Err(e) && e@ == "Unexpected database action"@,
        },
{
    match result {
        DatabaseAction::User(u) => Ok(User { id: id_text(u.id), name: u.name }),
        DatabaseAction::Failure(msg) => Err(msg),
        _ => Err(String::from_str("Unexpected database action")),
    }
}

/// The answer to a query for one message.
pub fn message_result(result: DatabaseAction) -> (r: Result<Option<Message>, String>)
    ensures
        match result@ {
            Outcome::Message(m) => r matches Ok(Some(shown)) && shows_message(shown, m),
            Outcome::Failure(msg) => r matches Err(e) && e@ == msg,
            _ => r matches Ok(None),
        },
{
    match result {
        DatabaseAction::Message(m) => Ok(Some(message_object(m))),
        DatabaseAction::Failure(msg) => Err(msg),
        _ => Ok(None),
    }
}

/// Shows each message row through the API, in order.
pub fn message_objects(v: Vec<message::Model>) -> (r: Vec<Message>)
    ensures
        r@.len() == v@.len(),
        forall|i: int| 0 <= i < v@.len() ==> shows_message(#[trigger] r@[i], v@[i]@),
{
    let ghost rows = v@;
    let mut out: Vec<Message> = Vec::new();
    for m in it: v.into_iter()
        invariant
            it.seq() == rows,
            out@.len() == it.index(),
            forall|j: int| 0 <= j < out@.len() ==> shows_message(#[trigger] out@[j], rows[j]@),
    {
        out.push(message_object(m));
    }
    out
}

/// The answer to a query for a list of messages.
pub fn messages_result(result: DatabaseAction) -> (r: Result<Vec<Message>, String>)
    ensures
        match result@ {
            Outcome::Messages(rows) => r matches Ok(shown) && shown@.len() == rows.len() && forall|
                i: int,
            |
                0 <= i < rows.len() ==> shows_message(#[trigger] shown@[i], rows[i]),
            _ => r matches Err(e) && e@ == "Failed to fetch messages"@,
        },
{
    match result {
        DatabaseAction::Messages(v) => Ok(message_objects(v)),
        _ => Err(String::from_str("Failed to fetch messages")),
    }
}

/// What a mutation reports: success with a sentence, or the failure's
/// message as an error.
pub fn handle_database_action(result: DatabaseAction) -> (r: Result<MutationResponse, String>)
    ensures
        match result@ {
            Outcome::Success => r matches Ok(resp) && resp.success && resp.message@
                == "Action succeeded"@,
            Outcome::Failure(msg) => r matches Err(e) && e@ == msg,
            Outcome::User(_) => r matches Ok(resp) && resp.success && resp.message@
                == "User action succeeded"@,
            Outcome::Message(_) => r matches Ok(resp) && resp.success && resp.message@
                == "Message action succeeded"@,
            Outcome::Messages(_) => r matches Ok(resp) && resp.success && resp.message@
                == "Messages action succeeded"@,
        },
{
    match result {
        DatabaseAction::Success => Ok(
            MutationResponse { success: true, message: String::from_str("Action succeeded") },
        ),
        DatabaseAction::Failure(msg) => Err(msg),
        DatabaseAction::User(_) => Ok(
            MutationResponse { success: true, message: String::from_str("User action succeeded") },
        ),
        DatabaseAction::Message(_) => Ok(
            MutationResponse {
                success: true,
                message: String::from_str("Message action succeeded"),
            },
        ),
        DatabaseAction::Messages(_) => Ok(
            MutationResponse {
                success: true,
                message: String::from_str("Messages action succeeded"),
            },
        ),
    }
}

/// Reads a key given by a client; a refused key comes back as the sentence
/// that says why.
pub fn key_of(id: &str) -> (r: Result<i32, String>)
    ensures
        match id_parse(id@) {
            Ok(k) => r == Ok::<i32, String>(k),
            Err(e) => r matches Err(msg) && msg@ == e.message_spec(),
        },
{
    match parse_id(id) {
        Ok(k) => Ok(k),
        Err(e) => Err(e.message()),
    }
}

/// The request for a user's messages created between two RFC 3339 times,
/// both included. The key is read first, then the start, then the end; the
/// first one refused gives the error.
pub fn time_range_action(user_id: &str, start: &str, end: &str) -> (r: Result<MessageAction, String>)
    ensures
        id_parse(user_id@) is Ok && rfc3339_instant(start@) is Some && rfc3339_instant(end@) is Some
            ==> r == Ok::<MessageAction, String>(
            MessageAction::GetInTimeRangeForUser(
                id_parse(user_id@)->Ok_0,
                rfc3339_instant(start@)->0,
                rfc3339_instant(end@)->0,
            ),
        ),
        id_parse(user_id@) matches Err(e) ==> (r matches Err(msg) && msg@ == e.message_spec()),
        id_parse(user_id@) is Ok && rfc3339_instant(start@) is None ==> (r matches Err(msg)
            && exists|why: Seq<char>| msg@ == "Invalid start datetime: "@ + why),
        id_parse(user_id@) is Ok && rfc3339_instant(start@) is Some && rfc3339_instant(end@) is None
            ==> (r matches Err(msg) && exists|why: Seq<char>| msg@ == "Invalid end datetime: "@ + why),
{
    let uid = match key_of(user_id) {
        Ok(k) => k,
        Err(msg) => return Err(msg),
    };
    let from = match parse_rfc3339(start) {
        Ok(t) => t,
        Err(e) => {
            let why = parse_error_text(&e);
            return Err(String::from_str("Invalid start datetime: ").concat(why.as_str()));
        },
    };
    let to = match parse_rfc3339(end) {
        Ok(t) => t,
        Err(e) => {
            let why = parse_error_text(&e);
            return Err(String::from_str("Invalid end datetime: ").concat(why.as_str()));
        },
    };
    Ok(MessageAction::GetInTimeRangeForUser(uid, from, to))
}

} // verus!
