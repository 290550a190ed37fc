//! The user record.

use vstd::prelude::*;

verus! {

/// A user record. The store gives each record its identifier when it is
/// created: a record without one has not been stored yet.
#[derive(Debug, PartialEq, Eq)]
pub struct User {
    pub id: Option<i64>,
    pub name: String,
    pub age: i64,
}

/// What a user record holds.
pub struct UserView {
    pub id: Option<i64>,
    pub name: Seq<char>,
    pub age: i64,
}

impl View for User {
    type V = UserView;

    open spec fn view(&self) -> UserView {
        UserView { id: self.id, name: self.name@, age: self.age }
    }
}

/// What a user record holds, where there is one.
pub open spec fn user_view(user: Option<User>) -> Option<UserView> {
    match user {
        Some(user) => Some(user@),
        None => None,
    }
}

/// What a list of user records holds, record by record.
pub open spec fn views(users: Seq<User>) -> Seq<UserView> {
    users.map_values(|user: User| user@)
}

} // verus!
