use vstd::prelude::*;

verus! {

/// A row of the users table.
#[derive(Clone, Debug, PartialEq, Eq)]
pub struct Model {
    pub id: i32,
    pub name: String,
}

/// What a user row holds, as mathematical values.
pub struct UserRow {
    pub id: i32,
    pub name: Seq<char>,
}

impl View for Model {
    type V = UserRow;

    open spec fn view(&self) -> UserRow {
        UserRow { id: self.id, name: self.name@ }
    }
}

} // verus!
