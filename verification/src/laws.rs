//! The guarantees the store gives its callers, stated and proved once over
//! the models that the operation contracts speak of.

use vstd::prelude::*;

use crate::repository::{find_model, has_id, ids_of, ids_unique, lemma_find_model_absent};
use crate::store::InMemoryUserRepository;
use crate::user::UserModel;

verus! {

/// Uniqueness: however many creates a store has performed, the identifiers
/// of its records are pairwise distinct — no duplicate is ever issued.
pub proof fn lemma_ids_unique(s: &InMemoryUserRepository)
    requires
        s.wf(),
    ensures
        ids_unique(s.users_model()),
{
}

/// Create-then-find consistency: a create that appended a record with a
/// fresh identifier (exactly what `create_user`'s contract guarantees)
/// makes a following lookup of that identifier return that very record.
pub proof fn lemma_create_then_find(users: Seq<UserModel>, u: UserModel)
    requires
        !has_id(users, u.id),
    ensures
        find_model(users.push(u), u.id) == Some(u),
    decreases users.len(),
{
    let pushed = users.push(u);
    if users.len() == 0 {
        assert(pushed[0] == u);
    } else {
        assert(users[0].id != u.id);
        assert forall|j: int| 0 <= j < users.drop_first().len() implies !(#[trigger] users
            .drop_first()[j].id == u.id) by {
            assert(users[j + 1] == users.drop_first()[j]);
        }
        lemma_create_then_find(users.drop_first(), u);
        assert(pushed.drop_first() =~= users.drop_first().push(u));
    }
}

/// A run of successful creates, in the order the store performed them:
/// from records `users0` and allocator value `n0`, each create in turn
/// returns the next record of `returned`, carrying the allocator's value
/// at its turn and being appended to the records, exactly as
/// `create_user`'s contract fixes one call; the run ends with records
/// `users1` and allocator value `n1`.
pub open spec fn creation_run(
    users0: Seq<UserModel>,
    n0: u64,
    returned: Seq<UserModel>,
    users1: Seq<UserModel>,
    n1: u64,
) -> bool
    decreases returned.len(),
{
    if returned.len() == 0 {
        users1 == users0 && n1 == n0
    } else {
        &&& returned[0].id == n0
        &&& n0 < u64::MAX
        &&& creation_run(
            users0.push(returned[0]),
            (n0 + 1) as u64,
            returned.drop_first(),
            users1,
            n1,
        )
    }
}

/// What a run of creates amounts to: the records end as the starting ones
/// with the returned records appended in order, the allocator has advanced
/// once per create, and the i-th create returned the i-th allocator value.
pub proof fn lemma_creation_run(
    users0: Seq<UserModel>,
    n0: u64,
    returned: Seq<UserModel>,
    users1: Seq<UserModel>,
    n1: u64,
)
    requires
        creation_run(users0, n0, returned, users1, n1),
    ensures
        users1 == users0 + returned,
        n1 == n0 + returned.len(),
        forall|i: int| 0 <= i < returned.len() ==> returned[i].id == n0 + i,
    decreases returned.len(),
{
    if returned.len() == 0 {
        assert(users1 =~= users0 + returned);
    } else {
        lemma_creation_run(
            users0.push(returned[0]),
            (n0 + 1) as u64,
            returned.drop_first(),
            users1,
            n1,
        );
        assert(users1 =~= users0 + returned);
        assert forall|i: int| 0 <= i < returned.len() implies #[trigger] returned[i].id == n0
            + i by {
            if i > 0 {
                assert(returned.drop_first()[i - 1] == returned[i]);
            }
        }
    }
}

/// Uniqueness over a run: N successful creates return N records whose
/// identifiers are consecutive allocator values, so they are pairwise
/// distinct; and a later run starts at the allocator value where this one
/// ended, above every identifier already returned — no identifier is ever
/// returned twice in the store's lifetime.
pub proof fn lemma_created_ids_distinct(
    users0: Seq<UserModel>,
    n0: u64,
    returned: Seq<UserModel>,
    users1: Seq<UserModel>,
    n1: u64,
)
    requires
        creation_run(users0, n0, returned, users1, n1),
    ensures
        ids_of(returned).no_duplicates(),
        forall|i: int| 0 <= i < returned.len() ==> returned[i].id == n0 + i,
        forall|i: int| 0 <= i < returned.len() ==> returned[i].id < n1,
        n1 == n0 + returned.len(),
{
    lemma_creation_run(users0, n0, returned, users1, n1);
    assert forall|i: int, j: int|
        0 <= i < ids_of(returned).len() && 0 <= j < ids_of(returned).len() && i != j implies ids_of(
        returned,
    )[i] != ids_of(returned)[j] by {
        assert(ids_of(returned)[i] == returned[i].id);
        assert(ids_of(returned)[j] == returned[j].id);
    }
}

/// List completeness: after M sequential successful creates on a fresh
/// store, the stored records are exactly the M returned ones, so a listing
/// (whose contract returns exactly the stored records) holds M records
/// carrying exactly the created identifiers, each exactly once.
pub proof fn lemma_list_completeness(returned: Seq<UserModel>, users1: Seq<UserModel>, n1: u64)
    requires
        creation_run(Seq::<UserModel>::empty(), 1, returned, users1, n1),
    ensures
        users1 == returned,
        users1.len() == returned.len(),
        ids_of(users1) == ids_of(returned),
        ids_of(returned).no_duplicates(),
{
    lemma_creation_run(Seq::<UserModel>::empty(), 1, returned, users1, n1);
    assert(users1 =~= returned);
    lemma_created_ids_distinct(Seq::<UserModel>::empty(), 1, returned, users1, n1);
}

/// Absence: an identifier the store never issued — zero, or one the
/// allocator has not reached yet — is found in no record, so a lookup of it
/// returns `None`; and `find_user`'s contract returns `Ok` in every case,
/// so absence is never reported as an error.
pub proof fn lemma_absence(s: &InMemoryUserRepository, id: u64)
    requires
        s.wf(),
        id == 0 || id >= s.next_id_model(),
    ensures
        find_model(s.users_model(), id) is None,
{
    lemma_find_model_absent(s.users_model(), id);
}

/// Idempotent reads: the results that the read contracts admit are
/// functions of the store's model alone, so two lookups of the same
/// identifier, or two listings, with no intervening create agree exactly.
pub proof fn lemma_reads_idempotent(
    users: Seq<UserModel>,
    id: u64,
    found_first: Option<UserModel>,
    found_second: Option<UserModel>,
    listed_first: Seq<UserModel>,
    listed_second: Seq<UserModel>,
)
    requires
        found_first == find_model(users, id),
        found_second == find_model(users, id),
        listed_first == users,
        listed_second == users,
    ensures
        found_first == found_second,
        listed_first == listed_second,
{
}

} // verus!
