//! The user directory as the core sees it: a list of known users, owned by
//! the transport layer, searched by sender id.

use vstd::prelude::*;
use crate::strutil::string_eq_str;

verus! {

/// Identity of a message sender, as listed by the user directory.
#[derive(Debug, Clone)]
pub struct User {
    /// The directory's unique identifier for the user.
    pub id: String,
    /// The user's display name.
    pub name: String,
}

/// True if some user in `users` carries the id `id`.
pub open spec fn directory_knows(users: Seq<User>, id: Seq<char>) -> bool {
    exists|i: int| 0 <= i < users.len() && users[i].id@ == id
}

/// Resolves a sender id against the directory listing, returning the index
/// of the first user with that id.
pub fn find_user(users: &Vec<User>, id: &str) -> (r: Option<usize>)
    ensures
        r is Some <==> directory_knows(users@, id@),
        r matches Some(i) ==> i < users@.len() && users@[i as int].id@ == id@
            && (forall|j: int| 0 <= j < i ==> users@[j].id@ != id@),
{
    let mut i: usize = 0;
    while i < users.len()
        invariant
            0 <= i <= users@.len(),
            forall|j: int| 0 <= j < i ==> users@[j].id@ != id@,
        decreases users@.len() - i,
    {
        if string_eq_str(&users[i].id, id) {
            return Some(i);
        }
        i += 1;
    }
    None
}

} // verus!
