//! The repository contract: create/find/list over `User` records,
//! independent of the storage backend, together with the spec functions
//! that its contracts are stated over.

use vstd::prelude::*;

use crate::user::{CreateUserRequest, User, UserModel};

verus! {

/// The views of a sequence of stored records, in the same order.
pub open spec fn views_of(users: Seq<User>) -> Seq<UserModel> {
    users.map_values(|u: User| u@)
}

/// The identifiers of a sequence of records, in the same order.
pub open spec fn ids_of(users: Seq<UserModel>) -> Seq<u64> {
    users.map_values(|u: UserModel| u.id)
}

/// Whether some record in `users` carries identifier `id`.
pub open spec fn has_id(users: Seq<UserModel>, id: u64) -> bool {
    exists|i: int| 0 <= i < users.len() && users[i].id == id
}

/// Identifiers are pairwise distinct.
pub open spec fn ids_unique(users: Seq<UserModel>) -> bool {
    forall|i: int, j: int| 0 <= i < j < users.len() ==> users[i].id != users[j].id
}

/// The record a lookup must return for `id`: the first record carrying it,
/// `None` when no record does. When identifiers are unique, "first" is the
/// only one.
pub open spec fn find_model(users: Seq<UserModel>, id: u64) -> Option<UserModel>
    decreases users.len(),
{
    if users.len() == 0 {
        None
    } else if users[0].id == id {
        Some(users[0])
    } else {
        find_model(users.drop_first(), id)
    }
}

/// `find_model` returns the record at the first index carrying `id`.
pub proof fn lemma_find_model_at_index(users: Seq<UserModel>, id: u64, i: int)
    requires
        0 <= i < users.len(),
        users[i].id == id,
        forall|j: int| 0 <= j < i ==> users[j].id != id,
    ensures
        find_model(users, id) == Some(users[i]),
    decreases users.len(),
{
    if i > 0 {
        lemma_find_model_at_index(users.drop_first(), id, i - 1);
    }
}

/// `find_model` returns `None` exactly when no record carries `id`.
pub proof fn lemma_find_model_absent(users: Seq<UserModel>, id: u64)
    requires
        forall|j: int| 0 <= j < users.len() ==> users[j].id != id,
    ensures
        find_model(users, id) is None,
    decreases users.len(),
{
    if users.len() > 0 {
        lemma_find_model_absent(users.drop_first(), id);
    }
}

/// Whatever `find_model` returns carries the identifier it was asked for
/// and is one of the stored records.
pub proof fn lemma_find_model_sound(users: Seq<UserModel>, id: u64)
    ensures
        match find_model(users, id) {
            Some(m) => m.id == id && users.contains(m),
            None => !has_id(users, id),
        },
    decreases users.len(),
{
    if users.len() > 0 && users[0].id != id {
        lemma_find_model_sound(users.drop_first(), id);
        if find_model(users, id) is Some {
            let m = find_model(users, id)->Some_0;
            let i = choose|i: int| 0 <= i < users.drop_first().len() && users.drop_first()[i] == m;
            assert(users[i + 1] == m);
        } else {
            assert forall|i: int| 0 <= i < users.len() implies users[i].id != id by {
                if i > 0 {
                    assert(users.drop_first()[i - 1] == users[i]);
                }
            }
        }
    }
}

/// The repository contract, polymorphic over the storage backend. A caller
/// sees the backend only through its model: the sequence of stored records
/// in insertion order.
pub trait UserRepository: Sized {
    type Error;

    /// The records the backend holds, in insertion order.
    spec fn repo_users(&self) -> Seq<UserModel>;

    /// The backend's internal invariant; every operation preserves it.
    spec fn repo_wf(&self) -> bool;

    /// Whether the backend can accept one more record (for instance, its
    /// identifier allocator is not exhausted).
    spec fn repo_can_create(&self) -> bool;

    /// Allocates a fresh identifier, builds a `User` from the request, and
    /// stores it. On success the returned record has actually been stored:
    /// the new state is exactly the old records with the returned one
    /// appended. On failure nothing has changed.
    fn create_user(&mut self, request: CreateUserRequest) -> (r: Result<User, Self::Error>)
        requires
            old(self).repo_wf(),
            old(self).repo_can_create(),
        ensures
            final(self).repo_wf(),
            match r {
                Ok(u) => {
                    &&& u@.name == request@.name
                    &&& u@.email == request@.email
                    &&& !has_id(old(self).repo_users(), u@.id)
                    &&& final(self).repo_users() == old(self).repo_users().push(u@)
                },
                Err(_) => final(self).repo_users() == old(self).repo_users(),
            },
    ;

    /// Returns the stored record for `id` if present, `None` otherwise. A
    /// missing record is never an error.
    fn find_user(&self, id: u64) -> (r: Result<Option<User>, Self::Error>)
        requires
            self.repo_wf(),
        ensures
            match r {
                Ok(Some(u)) => find_model(self.repo_users(), id) == Some(u@),
                Ok(None) => find_model(self.repo_users(), id) is None,
                Err(_) => true,
            },
    ;

    /// Returns a snapshot of all stored records: exactly the backend's
    /// records, in insertion order.
    fn list_users(&self) -> (r: Result<Vec<User>, Self::Error>)
        requires
            self.repo_wf(),
        ensures
            match r {
                Ok(users) => views_of(users@) == self.repo_users(),
                Err(_) => true,
            },
    ;
}

} // verus!
