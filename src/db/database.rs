use vstd::prelude::*;

use crate::entity::message::{self, MessageRow};
use crate::entity::user::{self, UserRow};
use crate::time::Timestamp;

verus! {

/// A request on the users.
#[derive(Clone, Debug, PartialEq, Eq)]
pub enum UserAction {
    Create(String),
    Delete(i32),
    Update(i32, String),
    Get(i32),
}

/// A request on the messages. The time range is closed at both ends.
#[derive(Clone, Debug, PartialEq, Eq)]
pub enum MessageAction {
    Create(i32, String),
    Get(i32),
    GetAllForUser(i32),
    GetInTimeRangeForUser(i32, Timestamp, Timestamp),
    Update(i32, String),
    Delete(i32),
}

/// What a request comes to.
#[derive(Clone, Debug, PartialEq, Eq)]
pub enum DatabaseAction {
    Success,
    Failure(String),
    User(user::Model),
    Message(message::Model),
    Messages(Vec<message::Model>),
}

/// What a request comes to, as mathematical values.
pub enum Outcome {
    Success,
    Failure(Seq<char>),
    User(UserRow),
    Message(MessageRow),
    Messages(Seq<MessageRow>),
}

impl View for DatabaseAction {
    type V = Outcome;

    open spec fn view(&self) -> Outcome {
        match self {
            DatabaseAction::Success => Outcome::Success,
            DatabaseAction::Failure(m) => Outcome::Failure(m@),
            DatabaseAction::User(u) => Outcome::User(u@),
            DatabaseAction::Message(m) => Outcome::Message(m@),
            DatabaseAction::Messages(v) => Outcome::Messages(rows_of(v@)),
        }
    }
}

/// The rows that a sequence of message models holds, in order.
pub open spec fn rows_of(v: Seq<message::Model>) -> Seq<MessageRow> {
    v.map_values(|m: message::Model| m@)
}

/// One statement on the store, which the caller runs.
#[derive(Clone, Debug, PartialEq, Eq)]
pub enum Statement {
    InsertUser(String),
    FindUser(i32),
    RenameUser(i32, String),
    DeleteUser(i32),
    InsertMessage(i32, String),
    FindMessage(i32),
    RewriteMessage(i32, String),
    DeleteMessage(i32),
    MessagesOfUser(i32),
    MessagesOfUserBetween(i32, Timestamp, Timestamp),
}

/// What the store answered to a statement that went through.
#[derive(Clone, Debug, PartialEq, Eq)]
pub enum Answer {
    /// A row was inserted or updated.
    Written,
    FoundUser(Option<user::Model>),
    FoundMessage(Option<message::Model>),
    /// The number of rows that a delete by key removed.
    Removed(u64),
    Listed(Vec<message::Model>),
}

/// What to do next: run a statement and report its answer, or stop with the
/// request's outcome.
#[derive(Clone, Debug, PartialEq, Eq)]
pub enum Step {
    Run(Statement),
    Finish(DatabaseAction),
}

/// What to do next, as mathematical values.
pub enum StepView {
    Run(Statement),
    Finish(Outcome),
}

impl View for Step {
    type V = StepView;

    open spec fn view(&self) -> StepView {
        match self {
            Step::Run(st) => StepView::Run(*st),
            Step::Finish(a) => StepView::Finish(a@),
        }
    }
}

pub open spec fn user_not_found() -> Seq<char> {
    "User not found"@
}

pub open spec fn message_not_found() -> Seq<char> {
    "Message not found"@
}

fn failure_user_not_found() -> (r: DatabaseAction)
    ensures
        r@ == Outcome::Failure(user_not_found()),
{
    DatabaseAction::Failure(String::from_str("User not found"))
}

fn failure_message_not_found() -> (r: DatabaseAction)
    ensures
        r@ == Outcome::Failure(message_not_found()),
{
    DatabaseAction::Failure(String::from_str("Message not found"))
}

impl UserAction {
    /// The statement that starts the request: a lookup by key comes before
    /// an update.
    pub open spec fn first_spec(self) -> Statement {
        match self {
            UserAction::Create(name) => Statement::InsertUser(name),
            UserAction::Delete(id) => Statement::DeleteUser(id),
            UserAction::Update(id, _) => Statement::FindUser(id),
            UserAction::Get(id) => Statement::FindUser(id),
        }
    }

    /// The answers that the statements of this request can give.
    pub open spec fn expects_spec(self, a: Answer) -> bool {
        match self {
            UserAction::Create(_) => a is Written,
            UserAction::Delete(_) => a is Removed,
            UserAction::Update(_, _) => a is FoundUser || a is Written,
            UserAction::Get(_) => a is FoundUser,
        }
    }

    /// Look up by key; if absent, a not-found failure; else mutate or
    /// return the record.
    pub open spec fn next_spec(self, a: Answer) -> StepView {
        match self {
            UserAction::Create(_) => StepView::Finish(Outcome::Success),
            UserAction::Delete(_) => match a {
                Answer::Removed(n) if n > 0 => StepView::Finish(Outcome::Success),
                _ => StepView::Finish(Outcome::Failure(user_not_found())),
            },
            UserAction::Update(id, name) => match a {
                Answer::FoundUser(Some(_)) => StepView::Run(Statement::RenameUser(id, name)),
                Answer::Written => StepView::Finish(Outcome::Success),
                _ => StepView::Finish(Outcome::Failure(user_not_found())),
            },
            UserAction::Get(_) => match a {
                Answer::FoundUser(Some(u)) => StepView::Finish(Outcome::User(u@)),
                _ => StepView::Finish(Outcome::Failure(user_not_found())),
            },
        }
    }

    pub fn first_statement(&self) -> (r: Statement)
        ensures
            r == self.first_spec(),
    {
        match self {
            UserAction::Create(name) => Statement::InsertUser(name.clone()),
            UserAction::Delete(id) => Statement::DeleteUser(*id),
            UserAction::Update(id, _) => Statement::FindUser(*id),
            UserAction::Get(id) => Statement::FindUser(*id),
        }
    }

    pub fn expects(&self, a: &Answer) -> (r: bool)
        ensures
            r == self.expects_spec(*a),
    {
        match self {
            UserAction::Create(_) => matches!(a, Answer::Written),
            UserAction::Delete(_) => matches!(a, Answer::Removed(_)),
            UserAction::Update(_, _) => matches!(a, Answer::FoundUser(_) | Answer::Written),
            UserAction::Get(_) => matches!(a, Answer::FoundUser(_)),
        }
    }

    /// Decides on the answer to the last statement that this request ran.
    pub fn next(&self, a: Answer) -> (r: Step)
        requires
            self.expects_spec(a),
        ensures
            r@ == self.next_spec(a),
    {
        match self {
            UserAction::Create(_) => Step::Finish(DatabaseAction::Success),
            UserAction::Delete(_) => match a {
                Answer::Removed(n) if n > 0 => Step::Finish(DatabaseAction::Success),
                _ => Step::Finish(failure_user_not_found()),
            },
            UserAction::Update(id, name) => match a {
                Answer::FoundUser(Some(_)) => Step::Run(Statement::RenameUser(*id, name.clone())),
                Answer::Written => Step::Finish(DatabaseAction::Success),
                _ => Step::Finish(failure_user_not_found()),
            },
            UserAction::Get(_) => match a {
                Answer::FoundUser(Some(u)) => Step::Finish(DatabaseAction::User(u)),
                _ => Step::Finish(failure_user_not_found()),
            },
        }
    }
}

impl MessageAction {
    /// The statement that starts the request: a lookup by key comes before
    /// an update.
    pub open spec fn first_spec(self) -> Statement {
        match self {
            MessageAction::Create(uid, content) => Statement::InsertMessage(uid, content),
            MessageAction::Get(id) => Statement::FindMessage(id),
            MessageAction::GetAllForUser(uid) => Statement::MessagesOfUser(uid),
            MessageAction::GetInTimeRangeForUser(uid, start, end) => Statement::MessagesOfUserBetween(
                uid,
                start,
                end,
            ),
            MessageAction::Update(id, _) => Statement::FindMessage(id),
            MessageAction::Delete(id) => Statement::DeleteMessage(id),
        }
    }

    /// The answers that the statements of this request can give.
    pub open spec fn expects_spec(self, a: Answer) -> bool {
        match self {
            MessageAction::Create(_, _) => a is Written,
            MessageAction::Get(_) => a is FoundMessage,
            MessageAction::GetAllForUser(_) => a is Listed,
            MessageAction::GetInTimeRangeForUser(_, _, _) => a is Listed,
            MessageAction::Update(_, _) => a is FoundMessage || a is Written,
            MessageAction::Delete(_) => a is Removed,
        }
    }

    /// Look up by key; if absent, a not-found failure; else mutate or
    /// return the record. Lists are handed on as the store gave them.
    pub open spec fn next_spec(self, a: Answer) -> StepView {
        match self {
            MessageAction::Create(_, _) => StepView::Finish(Outcome::Success),
            MessageAction::Get(_) => match a {
                Answer::FoundMessage(Some(m)) => StepView::Finish(Outcome::Message(m@)),
                _ => StepView::Finish(Outcome::Failure(message_not_found())),
            },
            MessageAction::GetAllForUser(_) => match a {
                Answer::Listed(v) => StepView::Finish(Outcome::Messages(rows_of(v@))),
                _ => StepView::Finish(Outcome::Messages(Seq::empty())),
            },
            MessageAction::GetInTimeRangeForUser(_, _, _) => match a {
                Answer::Listed(v) => StepView::Finish(Outcome::Messages(rows_of(v@))),
                _ => StepView::Finish(Outcome::Messages(Seq::empty())),
            },
            MessageAction::Update(id, content) => match a {
                Answer::FoundMessage(Some(_)) => StepView::Run(
                    Statement::RewriteMessage(id, content),
                ),
                Answer::Written => StepView::Finish(Outcome::Success),
                _ => StepView::Finish(Outcome::Failure(message_not_found())),
            },
            MessageAction::Delete(_) => match a {
                Answer::Removed(n) if n > 0 => StepView::Finish(Outcome::Success),
                _ => StepView::Finish(Outcome::Failure(message_not_found())),
            },
        }
    }

    pub fn first_statement(&self) -> (r: Statement)
        ensures
            r == self.first_spec(),
    {
        match self {
            MessageAction::Create(uid, content) => Statement::InsertMessage(*uid, content.clone()),
            MessageAction::Get(id) => Statement::FindMessage(*id),
            MessageAction::GetAllForUser(uid) => Statement::MessagesOfUser(*uid),
            MessageAction::GetInTimeRangeForUser(uid, start, end) => Statement::MessagesOfUserBetween(
                *uid,
                *start,
                *end,
            ),
            MessageAction::Update(id, _) => Statement::FindMessage(*id),
            MessageAction::Delete(id) => Statement::DeleteMessage(*id),
        }
    }

    pub fn expects(&self, a: &Answer) -> (r: bool)
        ensures
            r == self.expects_spec(*a),
    {
        match self {
            MessageAction::Create(_, _) => matches!(a, Answer::Written),
            MessageAction::Get(_) => matches!(a, Answer::FoundMessage(_)),
            MessageAction::GetAllForUser(_) => matches!(a, Answer::Listed(_)),
            MessageAction::GetInTimeRangeForUser(_, _, _) => matches!(a, Answer::Listed(_)),
            MessageAction::Update(_, _) => matches!(a, Answer::FoundMessage(_) | Answer::Written),
            MessageAction::Delete(_) => matches!(a, Answer::Removed(_)),
        }
    }

    /// Decides on the answer to the last statement that this request ran.
    pub fn next(&self, a: Answer) -> (r: Step)
        requires
            self.expects_spec(a),
        ensures
            r@ == self.next_spec(a),
    {
        match self {
            MessageAction::Create(_, _) => Step::Finish(DatabaseAction::Success),
            MessageAction::Get(_) => match a {
                Answer::FoundMessage(Some(m)) => Step::Finish(DatabaseAction::Message(m)),
                _ => Step::Finish(failure_message_not_found()),
            },
            MessageAction::GetAllForUser(_) | MessageAction::GetInTimeRangeForUser(_, _, _) => {
                match a {
                    Answer::Listed(v) => Step::Finish(DatabaseAction::Messages(v)),
                    _ => Step::Finish(DatabaseAction::Messages(Vec::new())),
                }
            },
            MessageAction::Update(id, content) => match a {
                Answer::FoundMessage(Some(_)) => Step::Run(
                    Statement::RewriteMessage(*id, content.clone()),
                ),
                Answer::Written => Step::Finish(DatabaseAction::Success),
                _ => Step::Finish(failure_message_not_found()),
            },
            MessageAction::Delete(_) => match a {
                Answer::Removed(n) if n > 0 => Step::Finish(DatabaseAction::Success),
                _ => Step::Finish(failure_message_not_found()),
            },
        }
    }
}

} // verus!
