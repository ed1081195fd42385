use vstd::prelude::*;

use crate::db::database::{rows_of, Answer, MessageAction, Outcome, Statement, StepView, UserAction};
use crate::entity::message::MessageRow;
use crate::time::Timestamp;

verus! {

/// The relational store as mathematical values: each user's name by key,
/// and each message row by key.
pub struct Store {
    pub users: Map<i32, Seq<char>>,
    pub messages: Map<i32, MessageRow>,
}

impl Store {
    /// Each message row sits under its own key, its author exists, and so
    /// does the message that it answers.
    pub open spec fn wf(self) -> bool {
        forall|k: i32| #[trigger]
            self.messages.contains_key(k) ==> {
                let m = self.messages[k];
                &&& m.id == k
                &&& self.users.contains_key(m.user_id)
                &&& (m.parent_id matches Some(p) ==> self.messages.contains_key(p))
            }
    }
}

/// `after` is what stays of `before` when the messages that `doomed` picks
/// are deleted: a message goes when it is picked or when the message that it
/// answers goes, and the rest stays as it was.
pub open spec fn cascades(
    before: Map<i32, MessageRow>,
    after: Map<i32, MessageRow>,
    doomed: spec_fn(MessageRow) -> bool,
) -> bool {
    &&& after.submap_of(before)
    &&& forall|k: i32| #[trigger]
        before.contains_key(k) ==> (after.contains_key(k) <==> {
            &&& !doomed(before[k])
            &&& (before[k].parent_id matches Some(p) ==> after.contains_key(p))
        })
}

/// `rows` are the messages of `db` that `pick` selects, each once, in any
/// order.
pub open spec fn lists(db: Store, rows: Seq<MessageRow>, pick: spec_fn(MessageRow) -> bool) -> bool {
    &&& forall|i: int, j: int|
        0 <= i < j < rows.len() ==> #[trigger] rows[i].id != #[trigger] rows[j].id
    &&& forall|i: int|
        0 <= i < rows.len() ==> {
            &&& db.messages.contains_key(#[trigger] rows[i].id)
            &&& db.messages[rows[i].id] == rows[i]
            &&& pick(rows[i])
        }
    &&& forall|k: i32|
        #[trigger] db.messages.contains_key(k) && pick(db.messages[k]) ==> exists|i: int|
            0 <= i < rows.len() && #[trigger] rows[i].id == k
}

/// The store goes from `db` to `db2` on `st` and answers `a`, where the
/// statement goes through. Keys of new rows are the store's choice, and so
/// are the timestamps of a new message.
pub open spec fn performs(db: Store, st: Statement, a: Answer, db2: Store) -> bool {
    match st {
        Statement::InsertUser(name) => {
            &&& a is Written
            &&& exists|k: i32|
                !db.users.contains_key(k) && db2 == Store {
                    users: db.users.insert(k, name@),
                    messages: db.messages,
                }
        },
        Statement::FindUser(id) => {
            &&& db2 == db
            &&& match a {
                Answer::FoundUser(found) => match found {
                    Some(u) => db.users.contains_key(id) && u.id == id && u.name@ == db.users[id],
                    None => !db.users.contains_key(id),
                },
                _ => false,
            }
        },
        Statement::RenameUser(id, name) => {
            &&& a is Written
            &&& db.users.contains_key(id)
            &&& db2 == Store { users: db.users.insert(id, name@), messages: db.messages }
        },
        Statement::DeleteUser(id) => match a {
            Answer::Removed(n) => if db.users.contains_key(id) {
                &&& n == 1
                &&& db2.users == db.users.remove(id)
                &&& cascades(db.messages, db2.messages, |m: MessageRow| m.user_id == id)
            } else {
                n == 0 && db2 == db
            },
            _ => false,
        },
        Statement::InsertMessage(uid, content) => {
            &&& a is Written
            &&& db.users.contains_key(uid)
            &&& exists|k: i32, created: Timestamp, updated: Timestamp|
                !db.messages.contains_key(k) && db2 == Store {
                    users: db.users,
                    messages: db.messages.insert(
                        k,
                        MessageRow {
                            id: k,
                            user_id: uid,
                            content: content@,
                            created_at: created,
                            updated_at: updated,
                            parent_id: None,
                        },
                    ),
                }
        },
        Statement::FindMessage(id) => {
            &&& db2 == db
            &&& match a {
                Answer::FoundMessage(found) => match found {
                    Some(m) => db.messages.contains_key(id) && m@ == db.messages[id],
                    None => !db.messages.contains_key(id),
                },
                _ => false,
            }
        },
        Statement::RewriteMessage(id, content) => {
            &&& a is Written
            &&& db.messages.contains_key(id)
            &&& db2 == Store {
                users: db.users,
                messages: db.messages.insert(id, MessageRow { content: content@, ..db.messages[id] }),
            }
        },
        Statement::DeleteMessage(id) => match a {
            Answer::Removed(n) => if db.messages.contains_key(id) {
                &&& n == 1
                &&& db2.users == db.users
                &&& cascades(db.messages, db2.messages, |m: MessageRow| m.id == id)
            } else {
                n == 0 && db2 == db
            },
            _ => false,
        },
        Statement::MessagesOfUser(uid) => {
            &&& db2 == db
            &&& match a {
                Answer::Listed(v) => lists(db, rows_of(v@), |m: MessageRow| m.user_id == uid),
                _ => false,
            }
        },
        Statement::MessagesOfUserBetween(uid, start, end) => {
            &&& db2 == db
            &&& match a {
                Answer::Listed(v) => lists(
                    db,
                    rows_of(v@),
                    |m: MessageRow| m.user_id == uid && m.created_at.within(start, end),
                ),
                _ => false,
            }
        },
    }
}

/// The second statement of a request went through from `db1` to `db2`,
/// answering `a2`, and the request ended with `out`.
pub open spec fn last_leg(
    db1: Store,
    st: Statement,
    expects: spec_fn(Answer) -> bool,
    next: spec_fn(Answer) -> StepView,
    a2: Answer,
    db2: Store,
    out: Outcome,
) -> bool {
    &&& expects(a2)
    &&& performs(db1, st, a2, db2)
    &&& next(a2) == StepView::Finish(out)
}

/// The first statement of a request went through from `db` to `db1`,
/// answering `a1`, and the request then ended at `db2` with `out`, at once or
/// after one more statement.
pub open spec fn first_leg(
    db: Store,
    first: Statement,
    expects: spec_fn(Answer) -> bool,
    next: spec_fn(Answer) -> StepView,
    a1: Answer,
    db1: Store,
    db2: Store,
    out: Outcome,
) -> bool {
    &&& expects(a1)
    &&& performs(db, first, a1, db1)
    &&& match next(a1) {
        StepView::Finish(o) => db2 == db1 && out == o,
        StepView::Run(st) => exists|a2: Answer| #[trigger]
            last_leg(db1, st, expects, next, a2, db2, out),
    }
}

/// A request run to its end against the store: the first statement, and,
/// where the answer calls for it, one more.
pub open spec fn runs(
    db: Store,
    first: Statement,
    expects: spec_fn(Answer) -> bool,
    next: spec_fn(Answer) -> StepView,
    db2: Store,
    out: Outcome,
) -> bool {
    exists|a1: Answer, db1: Store| #[trigger] first_leg(db, first, expects, next, a1, db1, db2, out)
}

/// A user request run to its end: from `db` to `db2`, with outcome `out`.
pub open spec fn user_run(db: Store, action: UserAction, db2: Store, out: Outcome) -> bool {
    runs(
        db,
        action.first_spec(),
        |a: Answer| action.expects_spec(a),
        |a: Answer| action.next_spec(a),
        db2,
        out,
    )
}

/// A message request run to its end: from `db` to `db2`, with outcome `out`.
pub open spec fn message_run(db: Store, action: MessageAction, db2: Store, out: Outcome) -> bool {
    runs(
        db,
        action.first_spec(),
        |a: Answer| action.expects_spec(a),
        |a: Answer| action.next_spec(a),
        db2,
        out,
    )
}

/// What stays of a cascade is left as it was, and keeps what the cascade
/// asks of it.
pub proof fn lemma_cascade_kept(
    before: Map<i32, MessageRow>,
    after: Map<i32, MessageRow>,
    doomed: spec_fn(MessageRow) -> bool,
    k: i32,
)
    requires
        cascades(before, after, doomed),
        after.contains_key(k),
    ensures
        before.contains_key(k),
        after[k] == before[k],
        !doomed(before[k]),
        before[k].parent_id matches Some(p) ==> after.contains_key(p),
{
    assert(before.contains_key(k));
}

/// A statement that goes through keeps the store well formed.
pub proof fn lemma_performs_keeps_wf(db: Store, st: Statement, a: Answer, db2: Store)
    requires
        db.wf(),
        performs(db, st, a, db2),
    ensures
        db2.wf(),
{
    match st {
        Statement::DeleteUser(id) => {
            if db.users.contains_key(id) {
                assert forall|k: i32| #[trigger] db2.messages.contains_key(k) implies {
                    let m = db2.messages[k];
                    &&& m.id == k
                    &&& db2.users.contains_key(m.user_id)
                    &&& (m.parent_id matches Some(p) ==> db2.messages.contains_key(p))
                } by {
                    lemma_cascade_kept(db.messages, db2.messages, |m: MessageRow| m.user_id == id, k);
                }
            }
        },
        Statement::DeleteMessage(id) => {
            if db.messages.contains_key(id) {
                assert forall|k: i32| #[trigger] db2.messages.contains_key(k) implies {
                    let m = db2.messages[k];
                    &&& m.id == k
                    &&& db2.users.contains_key(m.user_id)
                    &&& (m.parent_id matches Some(p) ==> db2.messages.contains_key(p))
                } by {
                    lemma_cascade_kept(db.messages, db2.messages, |m: MessageRow| m.id == id, k);
                }
            }
        },
        _ => {},
    }
}

/// A request run to its end keeps the store well formed.
pub proof fn lemma_runs_keep_wf(
    db: Store,
    first: Statement,
    expects: spec_fn(Answer) -> bool,
    next: spec_fn(Answer) -> StepView,
    db2: Store,
    out: Outcome,
)
    requires
        db.wf(),
        runs(db, first, expects, next, db2, out),
    ensures
        db2.wf(),
{
    let (a1, db1) = choose|a1: Answer, db1: Store|
        #[trigger] first_leg(db, first, expects, next, a1, db1, db2, out);
    lemma_performs_keeps_wf(db, first, a1, db1);
    if let StepView::Run(st) = next(a1) {
        let a2 = choose|a2: Answer| #[trigger] last_leg(db1, st, expects, next, a2, db2, out);
        lemma_performs_keeps_wf(db1, st, a2, db2);
    }
}

} // verus!
