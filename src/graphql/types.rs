use vstd::prelude::*;

use crate::time::{format_rfc3339, rfc3339_text, Timestamp};

verus! {

/// A user as the API shows it: the key as decimal text.
#[derive(Clone, Debug, PartialEq, Eq)]
pub struct User {
    pub id: String,
    pub name: String,
}

/// A message as the API shows it: keys as decimal text.
#[derive(Clone, Debug, PartialEq, Eq)]
pub struct Message {
    pub id: String,
    pub user_id: String,
    pub content: String,
    pub created_at: Timestamp,
    pub updated_at: Timestamp,
    pub parent_id: Option<i32>,
}

impl User {
    pub fn id(&self) -> (r: &String)
        ensures
            r == &self.id,
    {
        &self.id
    }

    pub fn name(&self) -> (r: &str)
        ensures
            r@ == self.name@,
    {
        self.name.as_str()
    }
}

impl Message {
    pub fn id(&self) -> (r: &String)
        ensures
            r == &self.id,
    {
        &self.id
    }

    pub fn user_id(&self) -> (r: &String)
        ensures
            r == &self.user_id,
    {
        &self.user_id
    }

    pub fn content(&self) -> (r: &str)
        ensures
            r@ == self.content@,
    {
        self.content.as_str()
    }

    /// The creation time as RFC 3339 text; `None` only for an instant out of
    /// the representable range.
    pub fn created_at(&self) -> (r: Option<String>)
        ensures
            r is Some <==> rfc3339_text(self.created_at) is Some,
            r is Some ==> rfc3339_text(self.created_at) == Some(r->0@),
    {
        format_rfc3339(&self.created_at)
    }

    /// The time of the last update as RFC 3339 text; `None` only for an
    /// instant out of the representable range.
    pub fn updated_at(&self) -> (r: Option<String>)
        ensures
            r is Some <==> rfc3339_text(self.updated_at) is Some,
            r is Some ==> rfc3339_text(self.updated_at) == Some(r->0@),
    {
        format_rfc3339(&self.updated_at)
    }

    pub fn parent_id(&self) -> (r: Option<i32>)
        ensures
            r == self.parent_id,
    {
        self.parent_id
    }
}

} // verus!
