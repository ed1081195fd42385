use vstd::prelude::*;

use crate::db::database::{message_not_found, user_not_found, MessageAction, Outcome, UserAction};
use crate::db::database::Answer;
use crate::db::store::{lemma_runs_keep_wf, lists, message_run, user_run, Store};
use crate::entity::message::MessageRow;
use crate::entity::user::UserRow;

verus! {

/// A user that was just created reads back under the key that the store gave
/// it, with the name that it was given; nothing else changed.
pub proof fn lemma_create_user_then_get(
    db: Store,
    name: String,
    db1: Store,
    out1: Outcome,
    k: i32,
    db2: Store,
    out2: Outcome,
)
    requires
        user_run(db, UserAction::Create(name), db1, out1),
        !db.users.contains_key(k),
        db1.users.contains_key(k),
        user_run(db1, UserAction::Get(k), db2, out2),
    ensures
        out1 == Outcome::Success,
        db1.users == db.users.insert(k, name@),
        db1.messages == db.messages,
        out2 == Outcome::User(UserRow { id: k, name: name@ }),
        db2 == db1,
{
}


/// Updating a user changes its name and nothing else; updating under a key
/// that no user has is a not-found failure and changes nothing.
pub proof fn lemma_update_user(db: Store, id: i32, name: String, db1: Store, out: Outcome)
    requires
        user_run(db, UserAction::Update(id, name), db1, out),
    ensures
        db.users.contains_key(id) ==> {
            &&& out == Outcome::Success
            &&& db1.users == db.users.insert(id, name@)
            &&& db1.messages == db.messages
        },
        !db.users.contains_key(id) ==> out == Outcome::Failure(user_not_found()) && db1 == db,
{
}

/// Deleting a user removes it together with its messages, and reading it
/// afterwards is a not-found failure.
pub proof fn lemma_delete_user_then_get(
    db: Store,
    id: i32,
    db1: Store,
    out1: Outcome,
    db2: Store,
    out2: Outcome,
)
    requires
        db.wf(),
        user_run(db, UserAction::Delete(id), db1, out1),
        user_run(db1, UserAction::Get(id), db2, out2),
    ensures
        out1 == (if db.users.contains_key(id) {
            Outcome::Success
        } else {
            Outcome::Failure(user_not_found())
        }),
        db1.users == db.users.remove(id),
        forall|k: i32| #[trigger] db1.messages.contains_key(k) ==> db1.messages[k].user_id != id,
        out2 == Outcome::Failure(user_not_found()),
{
    assert forall|k: i32| #[trigger] db1.messages.contains_key(k) implies db1.messages[k].user_id
        != id by {
        assert(db.messages.contains_key(k));
    }
}

/// A message that was just created reads back under the key that the store
/// gave it, with its author and content, answering no other message; nothing
/// else changed.
pub proof fn lemma_create_message_then_get(
    db: Store,
    uid: i32,
    content: String,
    db1: Store,
    out1: Outcome,
    k: i32,
    db2: Store,
    out2: Outcome,
)
    requires
        message_run(db, MessageAction::Create(uid, content), db1, out1),
        !db.messages.contains_key(k),
        db1.messages.contains_key(k),
        message_run(db1, MessageAction::Get(k), db2, out2),
    ensures
        out1 == Outcome::Success,
        db.users.contains_key(uid),
        db1.users == db.users,
        db1.messages.remove(k) == db.messages,
        out2 matches Outcome::Message(row) && {
            &&& row.id == k
            &&& row.user_id == uid
            &&& row.content == content@
            &&& row.parent_id is None
        },
        db2 == db1,
{
}

/// Updating a message changes its content and nothing else; updating under a
/// key that no message has is a not-found failure and changes nothing.
pub proof fn lemma_update_message(db: Store, id: i32, content: String, db1: Store, out: Outcome)
    requires
        message_run(db, MessageAction::Update(id, content), db1, out),
    ensures
        db.messages.contains_key(id) ==> {
            &&& out == Outcome::Success
            &&& db1.users == db.users
            &&& db1.messages == db.messages.insert(
                id,
                MessageRow { content: content@, ..db.messages[id] },
            )
        },
        !db.messages.contains_key(id) ==> out == Outcome::Failure(message_not_found()) && db1 == db,
{
}

/// Deleting a message removes it together with the replies to it, and
/// reading it afterwards is a not-found failure.
pub proof fn lemma_delete_message_then_get(
    db: Store,
    id: i32,
    db1: Store,
    out1: Outcome,
    db2: Store,
    out2: Outcome,
)
    requires
        db.wf(),
        message_run(db, MessageAction::Delete(id), db1, out1),
        message_run(db1, MessageAction::Get(id), db2, out2),
    ensures
        out1 == (if db.messages.contains_key(id) {
            Outcome::Success
        } else {
            Outcome::Failure(message_not_found())
        }),
        db1.users == db.users,
        !db1.messages.contains_key(id),
        forall|k: i32| #[trigger] db1.messages.contains_key(k) ==> db1.messages[k].parent_id != Some(id),
        out2 == Outcome::Failure(message_not_found()),
{
    assert forall|k: i32| #[trigger] db1.messages.contains_key(k) implies db1.messages[k].parent_id
        != Some(id) by {
        assert(db.messages.contains_key(k));
    }
}

/// Listing a user's messages, over all time or over a closed time range,
/// gives each such message once, as stored, and changes nothing.
pub proof fn lemma_list_messages(
    db: Store,
    uid: i32,
    start: crate::time::Timestamp,
    end: crate::time::Timestamp,
    db1: Store,
    out1: Outcome,
    db2: Store,
    out2: Outcome,
)
    requires
        message_run(db, MessageAction::GetAllForUser(uid), db1, out1),
        message_run(db, MessageAction::GetInTimeRangeForUser(uid, start, end), db2, out2),
    ensures
        db1 == db,
        out1 matches Outcome::Messages(rows) && lists(db, rows, |m: MessageRow| m.user_id == uid),
        db2 == db,
        out2 matches Outcome::Messages(rows) && lists(
            db,
            rows,
            |m: MessageRow| m.user_id == uid && m.created_at.within(start, end),
        ),
{
}

/// No user request breaks the store's invariants.
pub proof fn lemma_user_run_keeps_wf(db: Store, action: UserAction, db1: Store, out: Outcome)
    requires
        db.wf(),
        user_run(db, action, db1, out),
    ensures
        db1.wf(),
{
    lemma_runs_keep_wf(
        db,
        action.first_spec(),
        |a: Answer| action.expects_spec(a),
        |a: Answer| action.next_spec(a),
        db1,
        out,
    );
}

/// No message request breaks the store's invariants.
pub proof fn lemma_message_run_keeps_wf(db: Store, action: MessageAction, db1: Store, out: Outcome)
    requires
        db.wf(),
        message_run(db, action, db1, out),
    ensures
        db1.wf(),
{
    lemma_runs_keep_wf(
        db,
        action.first_spec(),
        |a: Answer| action.expects_spec(a),
        |a: Answer| action.next_spec(a),
        db1,
        out,
    );
}

} // verus!
