use vstd::prelude::*;

use crate::db::DB;
use crate::db::contains_id;
use crate::db::first_match;
use crate::db::found_view;
use crate::user_service::User;
use crate::user_service::UserView;

verus! {

/// The schema's queryable root: it declares the two supported read
/// operations and resolves each against the data store handle it holds. It
/// exposes no mutating operation, so concurrent resolutions need no
/// coordination.
pub struct Query {
    pub db: DB,
}

impl Query {
    /// Resolves a single-user lookup. Any identifier string is legal input;
    /// the result is a copy of the first record in store order whose
    /// identifier equals `id` exactly, or absence when no record matches.
    /// Absence is a normal outcome, never an error.
    pub fn get_user(&self, id: String) -> (r: Option<User>)
        ensures
            found_view(r) == first_match(self.db@, id@),
            r is None <==> !contains_id(self.db@, id@),
    {
        self.db.fetch_by_id(&id)
    }

    /// Resolves the fetch-all operation: a copy of every record in the
    /// store, in store order — as many records as the store holds, and
    /// exactly its records. An empty store yields an empty sequence.
    pub fn get_users(&self) -> (r: Vec<User>)
        ensures
            r@.map(|i: int, u: User| u@) == self.db@,
            r@.len() == self.db@.len(),
            r@.map(|i: int, u: User| u@).to_set() == self.db@.to_set(),
    {
        self.db.fetch_all()
    }
}

/// Resolution is idempotent: two single-user lookups of the same identifier
/// against the same store contents resolve to the same result.
pub proof fn lemma_get_user_idempotent(
    s: Seq<UserView>,
    id: Seq<char>,
    r1: Option<User>,
    r2: Option<User>,
)
    requires
        found_view(r1) == first_match(s, id),
        found_view(r2) == first_match(s, id),
    ensures
        found_view(r1) == found_view(r2),
{
}

/// Resolution is idempotent: two fetch-all calls against the same store
/// contents resolve to the same sequence of records.
pub proof fn lemma_get_users_idempotent(s: Seq<UserView>, r1: Seq<UserView>, r2: Seq<UserView>)
    requires
        r1 == s,
        r2 == s,
    ensures
        r1 == r2,
{
}

} // verus!
