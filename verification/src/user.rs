//! The user entity and the fields a client supplies for it.

use vstd::prelude::*;

verus! {

/// A stored user as a mathematical value.
pub struct UserView {
    pub id: int,
    pub username: Seq<char>,
    pub email: Seq<char>,
}

/// One row of the users table. The storage engine assigns `id` when the row
/// is created and never changes it afterwards.
#[derive(Debug, PartialEq, Eq)]
pub struct User {
    pub id: i32,
    pub username: String,
    pub email: String,
}

impl View for User {
    type V = UserView;

    open spec fn view(&self) -> UserView {
        UserView { id: self.id as int, username: self.username@, email: self.email@ }
    }
}

impl Clone for User {
    fn clone(&self) -> (copy: Self)
        ensures
            copy == *self,
    {
        User { id: self.id, username: self.username.clone(), email: self.email.clone() }
    }
}

/// The client-supplied fields of a user as a mathematical value.
pub struct UserPayloadView {
    pub username: Seq<char>,
    pub email: Seq<char>,
}

/// The fields a client sends to create a user or to overwrite one.
#[derive(Debug, PartialEq, Eq)]
pub struct UserPayload {
    pub username: String,
    pub email: String,
}

impl View for UserPayload {
    type V = UserPayloadView;

    open spec fn view(&self) -> UserPayloadView {
        UserPayloadView { username: self.username@, email: self.email@ }
    }
}

impl Clone for UserPayload {
    fn clone(&self) -> (copy: Self)
        ensures
            copy == *self,
    {
        UserPayload { username: self.username.clone(), email: self.email.clone() }
    }
}

} // verus!
