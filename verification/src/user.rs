//! The user record held by the store: an optional identifier (absent on
//! input to create, assigned at creation time) and two free-form fields.

use vstd::prelude::*;

verus! {

/// A user record. `id` is `None` on a create-request body and `Some` of
/// the generated identifier once stored; `name` and `email` are free-form.
#[derive(Debug)]
pub struct User {
    pub id: Option<String>,
    pub name: String,
    pub email: String,
}

/// The mathematical value of a [`User`]: each string as its character
/// sequence.
pub ghost struct UserView {
    pub id: Option<Seq<char>>,
    pub name: Seq<char>,
    pub email: Seq<char>,
}

impl View for User {
    type V = UserView;

    open spec fn view(&self) -> UserView {
        UserView {
            id: match self.id {
                Option::Some(s) => Option::Some(s@),
                Option::None => Option::None,
            },
            name: self.name@,
            email: self.email@,
        }
    }
}

impl Clone for User {
    /// A clone carries the same identifier, name and email.
    fn clone(&self) -> (r: Self)
        ensures
            r@ == self@,
    {
        User {
            id: match &self.id {
                Option::Some(s) => Option::Some(s.clone()),
                Option::None => Option::None,
            },
            name: self.name.clone(),
            email: self.email.clone(),
        }
    }
}

} // verus!
