use vstd::prelude::*;

use crate::user_service::User;
use crate::user_service::UserView;

verus! {

/// The first record at index `k` or later whose identifier equals `id`,
/// scanning in store order; absence when no such record exists.
pub open spec fn first_match_from(s: Seq<UserView>, id: Seq<char>, k: int) -> Option<UserView>
    decreases s.len() - k,
{
    if k < 0 || k >= s.len() {
        None
    } else if s[k].id == id {
        Some(s[k])
    } else {
        first_match_from(s, id, k + 1)
    }
}

/// The first record in `s` whose identifier equals `id`, in store order;
/// absence when no record carries `id`.
pub open spec fn first_match(s: Seq<UserView>, id: Seq<char>) -> Option<UserView> {
    first_match_from(s, id, 0)
}

/// Whether some record in `s` carries the identifier `id`.
pub open spec fn contains_id(s: Seq<UserView>, id: Seq<char>) -> bool {
    exists|i: int| 0 <= i < s.len() && s[i].id == id
}

/// The model of an optional record handed back to a caller.
pub open spec fn found_view(r: Option<User>) -> Option<UserView> {
    match r {
        Some(u) => Some(u@),
        None => None,
    }
}

proof fn lemma_first_match_from_absent(s: Seq<UserView>, id: Seq<char>, k: int)
    requires
        0 <= k <= s.len(),
    ensures
        first_match_from(s, id, k) is None <==> (forall|j: int| k <= j < s.len() ==> s[j].id != id),
    decreases s.len() - k,
{
    if k < s.len() {
        lemma_first_match_from_absent(s, id, k + 1);
    }
}

/// A lookup finds a record if and only if some record carries the looked-up
/// identifier: an identifier nobody carries yields absence, and never an
/// error.
pub proof fn lemma_match_iff_present(s: Seq<UserView>, id: Seq<char>)
    ensures
        first_match(s, id) is None <==> !contains_id(s, id),
{
    lemma_first_match_from_absent(s, id, 0);
}

proof fn lemma_first_match_from_found(s: Seq<UserView>, id: Seq<char>, k: int, i: int)
    requires
        0 <= k <= i < s.len(),
        s[i].id == id,
        forall|j: int| k <= j < i ==> s[j].id != id,
    ensures
        first_match_from(s, id, k) == Some(s[i]),
    decreases i - k,
{
    if k < i {
        lemma_first_match_from_found(s, id, k + 1, i);
    }
}

/// A lookup returns the record at the earliest store position that carries
/// the looked-up identifier. Duplicate identifiers are not a supported
/// state; if the seed data nonetheless holds them, later records carrying
/// the same identifier are shadowed by the first — a defensive fallback,
/// not a supported behaviour.
pub proof fn lemma_match_is_earliest(s: Seq<UserView>, id: Seq<char>, i: int)
    requires
        0 <= i < s.len(),
        s[i].id == id,
        forall|j: int| 0 <= j < i ==> s[j].id != id,
    ensures
        first_match(s, id) == Some(s[i]),
{
    lemma_first_match_from_found(s, id, 0, i);
}

/// A lookup for an identifier carried by exactly one record returns that
/// very record.
pub proof fn lemma_unique_id_found(s: Seq<UserView>, id: Seq<char>, i: int)
    requires
        0 <= i < s.len(),
        s[i].id == id,
        forall|j: int| 0 <= j < s.len() && j != i ==> s[j].id != id,
    ensures
        first_match(s, id) == Some(s[i]),
{
    lemma_match_is_earliest(s, id, i);
}

/// The in-memory data store: the sole owner of the user records, in seed
/// order. It is read-only after construction — no method takes the store
/// mutably — so any number of readers may query it concurrently.
pub struct DB {
    users: Vec<User>,
}

impl View for DB {
    type V = Seq<UserView>;

    closed spec fn view(&self) -> Seq<UserView> {
        self.users@.map(|i: int, u: User| u@)
    }
}

impl DB {
    /// Seeds the store with the given records, kept in the given order.
    pub fn new(users: Vec<User>) -> (r: DB)
        ensures
            r@ == users@.map(|i: int, u: User| u@),
    {
        DB { users }
    }

    /// Returns a copy of every record held, in store order. An empty store
    /// yields an empty sequence, never an error.
    pub fn fetch_all(&self) -> (r: Vec<User>)
        ensures
            r@.map(|i: int, u: User| u@) == self@,
            r@.len() == self@.len(),
    {
        let mut out: Vec<User> = Vec::new();
        let mut k: usize = 0;
        while k < self.users.len()
            invariant
                k <= self.users.len(),
                out@.map(|i: int, u: User| u@) =~= self@.take(k as int),
            decreases self.users.len() - k,
        {
            let u = self.users[k].clone();
            let ghost prev = out@;
            out.push(u);
            proof {
                assert(out@.map(|i: int, x: User| x@) =~= prev.map(|i: int, x: User| x@).push(u@));
                assert(out@.map(|i: int, x: User| x@) =~= self@.take(k as int + 1));
            }
            k += 1;
        }
        proof {
            assert(self@.take(self.users@.len() as int) =~= self@);
        }
        out
    }

    /// Returns a copy of the first record in store order whose identifier
    /// equals `id` byte for byte, or absence when no record matches. Absence
    /// is a normal outcome, not an error.
    pub fn fetch_by_id(&self, id: &String) -> (r: Option<User>)
        ensures
            found_view(r) == first_match(self@, id@),
            r is None <==> !contains_id(self@, id@),
    {
        proof {
            lemma_match_iff_present(self@, id@);
        }
        let mut k: usize = 0;
        while k < self.users.len()
            invariant
                k <= self.users.len(),
                first_match(self@, id@) == first_match_from(self@, id@, k as int),
            decreases self.users.len() - k,
        {
            if self.users[k].id == *id {
                return Some(self.users[k].clone());
            }
            k += 1;
        }
        None
    }
}

} // verus!
