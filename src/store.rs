use vstd::prelude::*;
use crate::entity::Entity;

verus! {

/// Why a store write did not take effect.
#[derive(Debug, Clone, Copy, PartialEq, Eq, Structural)]
pub enum StoreError {
    /// `create` on an id that is already stored.
    Conflict,
    /// `update` on an id that is not stored.
    NotFound,
    /// Any other answer, by its HTTP status.
    Failed { status: u16 },
}

/// A successful HTTP status.
pub open spec fn is_success(status: u16) -> bool {
    200 <= status <= 299
}

/// The outcome of a `create` that the store answered with `status`.
pub open spec fn create_outcome_spec(status: u16) -> Result<(), StoreError> {
    if is_success(status) {
        Ok(())
    } else if status == 409 {
        Err(StoreError::Conflict)
    } else {
        Err(StoreError::Failed { status })
    }
}

/// The outcome of an `update` that the store answered with `status`.
pub open spec fn update_outcome_spec(status: u16) -> Result<(), StoreError> {
    if is_success(status) {
        Ok(())
    } else if status == 404 {
        Err(StoreError::NotFound)
    } else {
        Err(StoreError::Failed { status })
    }
}

/// Reads the answer to an index existence check.
pub fn index_exists(status: u16) -> (r: bool)
    ensures
        r == (status == 200),
{
    status == 200
}

/// Reads the answer to a `create`: a duplicate id is a conflict.
pub fn create_outcome(status: u16) -> (r: Result<(), StoreError>)
    ensures
        r == create_outcome_spec(status),
{
    if 200 <= status && status <= 299 {
        Ok(())
    } else if status == 409 {
        Err(StoreError::Conflict)
    } else {
        Err(StoreError::Failed { status })
    }
}

/// Reads the answer to an `update`: a missing id is reported as such.
pub fn update_outcome(status: u16) -> (r: Result<(), StoreError>)
    ensures
        r == update_outcome_spec(status),
{
    if 200 <= status && status <= 299 {
        Ok(())
    } else if status == 404 {
        Err(StoreError::NotFound)
    } else {
        Err(StoreError::Failed { status })
    }
}

/// How many items of a bulk create were written, given the item statuses.
pub open spec fn bulk_created(statuses: Seq<u16>) -> nat
    decreases statuses.len(),
{
    if statuses.len() == 0 {
        0
    } else {
        bulk_created(statuses.drop_last()) + if is_success(statuses.last()) { 1nat } else { 0nat }
    }
}

/// The status of the first item of a bulk create that failed otherwise than
/// by a conflict, if any.
pub open spec fn bulk_first_failure(statuses: Seq<u16>) -> Option<u16>
    decreases statuses.len(),
{
    if statuses.len() == 0 {
        None
    } else {
        match bulk_first_failure(statuses.drop_last()) {
            Some(s) => Some(s),
            None => {
                let s = statuses.last();
                if is_success(s) || s == 409 { None } else { Some(s) }
            },
        }
    }
}

/// Reads the per-item answers of a bulk create. Items are independent: one
/// that was already stored is skipped without failing the others; any
/// other failed item makes the whole write an error.
pub fn bulk_create_outcome(statuses: &Vec<u16>) -> (r: Result<usize, StoreError>)
    ensures
        match bulk_first_failure(statuses@) {
            Some(s) => r == Err::<usize, StoreError>(StoreError::Failed { status: s }),
            None => r == Ok::<usize, StoreError>(bulk_created(statuses@) as usize),
        },
{
    let mut created: usize = 0;
    let mut i: usize = 0;
    while i < statuses.len()
        invariant
            i <= statuses@.len(),
            bulk_first_failure(statuses@.take(i as int)) is None,
            created == bulk_created(statuses@.take(i as int)),
            created <= i,
        decreases statuses@.len() - i,
    {
        let s = statuses[i];
        proof {
            assert(statuses@.take(i + 1).drop_last() =~= statuses@.take(i as int));
        }
        if 200 <= s && s <= 299 {
            created = created + 1;
        } else if s != 409 {
            proof {
                lemma_bulk_failure_extends(statuses@, i + 1);
            }
            return Err(StoreError::Failed { status: s });
        }
        i = i + 1;
    }
    proof {
        assert(statuses@.take(i as int) =~= statuses@);
    }
    Ok(created)
}

/// Once a prefix of the item statuses has failed, every longer prefix
/// reports the same first failure.
proof fn lemma_bulk_failure_extends(all: Seq<u16>, k: int)
    requires
        0 <= k <= all.len(),
    ensures
        bulk_first_failure(all.take(k)) is Some ==> bulk_first_failure(all) == bulk_first_failure(all.take(k)),
    decreases all.len() - k,
{
    if k < all.len() {
        lemma_bulk_failure_extends(all, k + 1);
        assert(all.take(k + 1).drop_last() =~= all.take(k));
    } else {
        assert(all.take(k) =~= all);
    }
}

/// The contents of one index of the store, by upstream id.
pub type IndexContents<D> = Map<u32, Entity<D>>;

/// What `create` does to an index: stores the entity under a new id, and
/// changes nothing on an id that is already there.
pub open spec fn create_in<D>(index: IndexContents<D>, id: u32, e: Entity<D>) -> (IndexContents<D>, Result<(), StoreError>) {
    if index.contains_key(id) {
        (index, Err(StoreError::Conflict))
    } else {
        (index.insert(id, e), Ok(()))
    }
}

/// What `get` returns from an index.
pub open spec fn get_from<D>(index: IndexContents<D>, id: u32) -> Option<Entity<D>> {
    if index.contains_key(id) {
        Some(index[id])
    } else {
        None
    }
}

/// An entity stored by a successful `create` reads back unchanged under the
/// same id, and at most one `create` of an id succeeds.
pub proof fn lemma_create_then_get<D>(index: IndexContents<D>, id: u32, e: Entity<D>, other: Entity<D>)
    requires
        !index.contains_key(id),
    ensures
        create_in(index, id, e).1 is Ok,
        get_from(create_in(index, id, e).0, id) == Some(e),
        create_in(create_in(index, id, e).0, id, other).1 == Err::<(), StoreError>(StoreError::Conflict),
        create_in(create_in(index, id, e).0, id, other).0 == create_in(index, id, e).0,
{
}

} // verus!
