//! The in-memory backend: a keyed collection of records plus a monotone
//! identifier allocator, implementing the repository contract.

use vstd::prelude::*;

use crate::repository::{
    has_id, lemma_find_model_absent, lemma_find_model_at_index, views_of, UserRepository,
};
use crate::user::{CreateUserRequest, StorageError, User, UserModel};

verus! {

/// The store's invariant over its model: the allocator starts at one and
/// only grows; every stored identifier was issued by the allocator (it lies
/// below the next value to issue, and at or above one); records stand in
/// insertion order, with strictly increasing identifiers — so identifiers
/// are unique and never reused.
pub open spec fn store_wf(users: Seq<UserModel>, next_id: u64) -> bool {
    &&& 1 <= next_id
    &&& forall|i: int| 0 <= i < users.len() ==> 1 <= #[trigger] users[i].id < next_id
    &&& forall|i: int, j: int| 0 <= i < j < users.len() ==> users[i].id < users[j].id
}

/// The in-memory implementation of [`UserRepository`]: records in a vector
/// in insertion order, keyed by their `id` field, plus the next identifier
/// to issue. The collection and the counter are owned exclusively by the
/// store; readers receive owned copies, never a handle into its state.
pub struct InMemoryUserRepository {
    users: Vec<User>,
    next_id: u64,
}

impl InMemoryUserRepository {
    /// The stored records, in insertion order.
    pub closed spec fn users_model(&self) -> Seq<UserModel> {
        views_of(self.users@)
    }

    /// The next identifier the allocator will issue.
    pub closed spec fn next_id_model(&self) -> u64 {
        self.next_id
    }

    /// The store's invariant: constructors establish it, every operation
    /// preserves it.
    pub open spec fn wf(&self) -> bool {
        store_wf(self.users_model(), self.next_id_model())
    }

    /// An empty store; the first identifier to be issued is `1`.
    pub fn new() -> (r: Self)
        ensures
            r.wf(),
            r.users_model() == Seq::<UserModel>::empty(),
            r.next_id_model() == 1,
    {
        let r = InMemoryUserRepository { users: Vec::new(), next_id: 1 };
        proof {
            assert(r.users_model() =~= Seq::<UserModel>::empty());
        }
        r
    }

    /// Whether the identifier allocator can issue one more identifier.
    pub fn can_allocate(&self) -> (b: bool)
        ensures
            b == (self.next_id_model() < u64::MAX),
    {
        self.next_id < u64::MAX
    }

    /// Creates and stores a record carrying the given timestamp: the core
    /// of `create_user`, with the clock reading passed in as a value. It
    /// always succeeds: a fresh identifier is issued and the returned
    /// record is exactly the one appended to the store.
    pub fn create_user_at(
        &mut self,
        request: CreateUserRequest,
        created_at: i64,
    ) -> (r: Result<User, StorageError>)
        requires
            old(self).wf(),
            old(self).next_id_model() < u64::MAX,
        ensures
            final(self).wf(),
            final(self).next_id_model() == old(self).next_id_model() + 1,
            match r {
                Ok(u) => {
                    &&& u@ == (UserModel {
                        id: old(self).next_id_model(),
                        name: request@.name,
                        email: request@.email,
                        created_at: created_at,
                    })
                    &&& !has_id(old(self).users_model(), u@.id)
                    &&& final(self).users_model() == old(self).users_model().push(u@)
                },
                Err(_) => false,
            },
    {
        let user = User {
            id: self.next_id,
            name: request.name,
            email: request.email,
            created_at: created_at,
        };
        let stored = user.duplicate();
        self.users.push(stored);
        self.next_id = self.next_id + 1;
        proof {
            assert(self.users_model() =~= old(self).users_model().push(user@));
        }
        Ok(user)
    }

    /// Seeds the store with its fixture record. Runs before the store is
    /// shared with any concurrent caller.
    pub fn initialize(&mut self) -> (r: Result<(), StorageError>)
        requires
            old(self).wf(),
            old(self).next_id_model() < u64::MAX,
        ensures
            final(self).wf(),
            r is Ok,
            final(self).next_id_model() == old(self).next_id_model() + 1,
            final(self).users_model().len() == old(self).users_model().len() + 1,
            final(self).users_model() == old(self).users_model().push(
                final(self).users_model().last(),
            ),
            final(self).users_model().last().id == old(self).next_id_model(),
            final(self).users_model().last().name == "John Doe"@,
            final(self).users_model().last().email == "john@example.com"@,
    {
        let request = CreateUserRequest {
            name: "John Doe".to_owned(),
            email: "john@example.com".to_owned(),
        };
        match self.create_user(request) {
            Ok(_) => Ok(()),
            Err(e) => Err(e),
        }
    }
}

/// Relies on chrono: the conversion from `std::time::SystemTime` accepts
/// any clock reading, a pre-epoch one as a negative timestamp, and
/// `timestamp_millis` turns it into milliseconds since the Unix epoch.
/// Nothing can be promised of a clock reading.
#[verifier::external_body]
fn now_timestamp_millis() -> i64 {
    chrono::DateTime::<chrono::Utc>::from(std::time::SystemTime::now()).timestamp_millis()
}

impl UserRepository for InMemoryUserRepository {
    type Error = StorageError;

    open spec fn repo_users(&self) -> Seq<UserModel> {
        self.users_model()
    }

    open spec fn repo_wf(&self) -> bool {
        self.wf()
    }

    open spec fn repo_can_create(&self) -> bool {
        self.next_id_model() < u64::MAX
    }

    /// Issues the next identifier, stamps the current time, and appends the
    /// record; issuing and storing happen under one exclusive borrow, so no
    /// identifier is ever issued without its record being stored.
    fn create_user(&mut self, request: CreateUserRequest) -> (r: Result<User, StorageError>)
        ensures
            r is Ok,
            final(self).next_id_model() == old(self).next_id_model() + 1,
            r matches Ok(u) ==> u@.id == old(self).next_id_model(),
    {
        let now: i64 = now_timestamp_millis();
        self.create_user_at(request, now)
    }

    fn find_user(&self, id: u64) -> (r: Result<Option<User>, StorageError>)
        ensures
            r is Ok,
    {
        let n = self.users.len();
        let mut i: usize = 0;
        while i < n
            invariant
                n == self.users@.len(),
                0 <= i <= n,
                self.wf(),
                forall|j: int| 0 <= j < i ==> self.users_model()[j].id != id,
            decreases n - i,
        {
            if self.users[i].id == id {
                let found = self.users[i].duplicate();
                proof {
                    lemma_find_model_at_index(self.users_model(), id, i as int);
                }
                return Ok(Some(found));
            }
            i = i + 1;
        }
        proof {
            lemma_find_model_absent(self.users_model(), id);
        }
        Ok(None)
    }

    fn list_users(&self) -> (r: Result<Vec<User>, StorageError>)
        ensures
            r is Ok,
    {
        let n = self.users.len();
        let mut out: Vec<User> = Vec::new();
        let mut i: usize = 0;
        while i < n
            invariant
                n == self.users@.len(),
                0 <= i <= n,
                out@.len() == i,
                forall|j: int| 0 <= j < i ==> out@[j] == self.users@[j],
            decreases n - i,
        {
            out.push(self.users[i].duplicate());
            i = i + 1;
        }
        proof {
            assert(out@ =~= self.users@);
        }
        Ok(out)
    }
}

} // verus!
