//! The user record: the sole entity of the service.
use vstd::prelude::*;

verus! {

/// A user record. `id` is assigned by the storage layer on creation and
/// never mutated; `email` is the only externally addressable key.
pub struct User {
    pub id: Option<String>,
    pub name: String,
    pub email: String,
}

/// The mathematical value of a `User`: its fields as character sequences.
pub struct UserView {
    pub id: Option<Seq<char>>,
    pub name: Seq<char>,
    pub email: Seq<char>,
}

impl View for User {
    type V = UserView;

    open spec fn view(&self) -> UserView {
        UserView {
            id: match self.id {
                Some(s) => Some(s@),
                None => None,
            },
            name: self.name@,
            email: self.email@,
        }
    }
}

impl Clone for User {
    fn clone(&self) -> (r: User)
        ensures
            r@ == self@,
    {
        User {
            id: match &self.id {
                Some(s) => Some(s.clone()),
                None => None,
            },
            name: self.name.clone(),
            email: self.email.clone(),
        }
    }
}

} // verus!
