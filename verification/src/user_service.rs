use vstd::prelude::*;

verus! {

/// The mathematical model of a user record: each attribute as a sequence of
/// characters.
pub ghost struct UserView {
    pub id: Seq<char>,
    pub name: Seq<char>,
}

/// One queryable entity: an opaque string identifier, unique within the
/// store, plus a display name.
pub struct User {
    pub id: String,
    pub name: String,
}

impl View for User {
    type V = UserView;

    open spec fn view(&self) -> UserView {
        UserView { id: self.id@, name: self.name@ }
    }
}

impl Clone for User {
    fn clone(&self) -> (r: Self)
        ensures
            r == *self,
    {
        User { id: self.id.clone(), name: self.name.clone() }
    }
}

impl User {
    /// Builds a record from its attributes.
    pub fn new(id: String, name: String) -> (r: User)
        ensures
            r@ == (UserView { id: id@, name: name@ }),
    {
        User { id, name }
    }
}

} // verus!
