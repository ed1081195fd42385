use vstd::prelude::*;

use crate::time::Timestamp;

verus! {

/// A row of the messages table. `parent_id` names the message that this one
/// answers, if any.
#[derive(Clone, Debug, PartialEq, Eq)]
pub struct Model {
    pub id: i32,
    pub user_id: i32,
    pub content: String,
    pub created_at: Timestamp,
    pub updated_at: Timestamp,
    pub parent_id: Option<i32>,
}

/// What a message row holds, as mathematical values.
pub struct MessageRow {
    pub id: i32,
    pub user_id: i32,
    pub content: Seq<char>,
    pub created_at: Timestamp,
    pub updated_at: Timestamp,
    pub parent_id: Option<i32>,
}

impl View for Model {
    type V = MessageRow;

    open spec fn view(&self) -> MessageRow {
        MessageRow {
            id: self.id,
            user_id: self.user_id,
            content: self.content@,
            created_at: self.created_at,
            updated_at: self.updated_at,
            parent_id: self.parent_id,
        }
    }
}

} // verus!
