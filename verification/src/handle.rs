//! The shared handle: one store instance behind a verified reader-writer
//! lock, so many concurrent callers can create and read through `&self`.
//! The lock's invariant is the store's own well-formedness; the handle adds
//! no discipline of its own beyond taking the lock around each operation.

use vstd::prelude::*;
use vstd::rwlock::{RwLock, RwLockPredicate};

use crate::repository::{ids_unique, lemma_find_model_sound, views_of, UserRepository};
use crate::store::InMemoryUserRepository;
use crate::user::{CreateUserRequest, StorageError, User};

verus! {

/// The lock invariant: the guarded store is well formed.
pub struct StoreInv;

impl RwLockPredicate<InMemoryUserRepository> for StoreInv {
    open spec fn inv(self, v: InMemoryUserRepository) -> bool {
        v.wf()
    }
}

/// A thread-shareable wrapper around one [`InMemoryUserRepository`]. All
/// operations take `&self`: writers are serialized against each other and
/// against readers by the lock, so no caller ever observes a half-inserted
/// record. Contracts here speak only of the returned values, since between
/// two calls other callers may have changed the shared state.
pub struct SharedHandle {
    lock: RwLock<InMemoryUserRepository, StoreInv>,
}

impl SharedHandle {
    /// Wraps a well-formed store. Called once at startup, before the store
    /// is exposed to concurrent callers.
    pub fn new(store: InMemoryUserRepository) -> (r: Self)
        requires
            store.wf(),
    {
        SharedHandle { lock: RwLock::new(store, Ghost(StoreInv)) }
    }

    /// A fresh, empty store behind a handle: the one constructor that asks
    /// nothing of its caller.
    pub fn new_empty() -> (r: Self) {
        SharedHandle::new(InMemoryUserRepository::new())
    }

    /// Creates a record under the write lock: identifier issue and insert
    /// happen in one critical section. Fails only when the identifier
    /// allocator is exhausted; on success the returned record carries the
    /// requested fields and an identifier the allocator issued.
    pub fn create_user(&self, request: CreateUserRequest) -> (r: Result<User, StorageError>)
        ensures
            r matches Ok(u) ==> {
                &&& u@.name == request@.name
                &&& u@.email == request@.email
                &&& 1 <= u@.id
            },
    {
        let (mut store, write_handle) = self.lock.acquire_write();
        if store.can_allocate() {
            let r = store.create_user(request);
            write_handle.release_write(store);
            r
        } else {
            write_handle.release_write(store);
            Err(StorageError)
        }
    }

    /// Looks a record up under a read lock. Never an error; a returned
    /// record carries the identifier it was asked for.
    pub fn find_user(&self, id: u64) -> (r: Result<Option<User>, StorageError>)
        ensures
            r is Ok,
            r matches Ok(Some(u)) ==> u@.id == id,
    {
        let read_handle = self.lock.acquire_read();
        let r = read_handle.borrow().find_user(id);
        proof {
            lemma_find_model_sound(read_handle.view().users_model(), id);
        }
        read_handle.release_read();
        r
    }

    /// Lists the records under a read lock: one consistent snapshot, in
    /// insertion order, with pairwise distinct identifiers. Never an error.
    pub fn list_users(&self) -> (r: Result<Vec<User>, StorageError>)
        ensures
            r is Ok,
            r matches Ok(users) ==> ids_unique(views_of(users@)),
            r matches Ok(users) ==> forall|i: int, j: int|
                0 <= i < j < users@.len() ==> views_of(users@)[i].id < views_of(users@)[j].id,
    {
        let read_handle = self.lock.acquire_read();
        let r = read_handle.borrow().list_users();
        read_handle.release_read();
        r
    }
}

} // verus!
