use vstd::prelude::*;
use crate::bulk::{FetchOutcome, UpstreamError};
use crate::entity::{Entity, discovered_spec};
use crate::store::{IndexContents, StoreError, create_in, get_from};

verus! {

/// Why a lookup failed, as opposed to finding nothing.
#[derive(Debug, Clone)]
pub enum ResolveError {
    Upstream(UpstreamError),
    Store(StoreError),
}

/// The next thing a cache-aside lookup of one id does.
///
/// The caller starts by reading the id from the store, hands the answer to
/// [`after_lookup`], and then performs each step it is given, handing its
/// outcome to the matching function, until it reaches `Done` or `Fail`.
#[derive(Debug, Clone)]
pub enum ResolveStep<D> {
    /// Fetch the id from upstream, then call [`after_upstream`].
    FetchUpstream,
    /// Create this entity under the id, then call [`after_create`].
    Create(Entity<D>),
    /// Read the id from the store again, then call [`after_reread`].
    Reread,
    /// The lookup is over, with the entity or with `None` when upstream
    /// does not know the id.
    Done(Option<Entity<D>>),
    /// The lookup failed.
    Fail(ResolveError),
}

/// The step after the first store read.
pub open spec fn after_lookup_spec<D>(hit: Option<Entity<D>>) -> ResolveStep<D> {
    match hit {
        Some(e) => ResolveStep::Done(Some(e)),
        None => ResolveStep::FetchUpstream,
    }
}

/// The step after the upstream fetch, at time `now`.
pub open spec fn after_upstream_spec<D>(outcome: FetchOutcome<D>, now: i64) -> ResolveStep<D> {
    match outcome {
        FetchOutcome::Found(d) => ResolveStep::Create(discovered_spec(d, now, false)),
        FetchOutcome::NotFound => ResolveStep::Done(None),
        FetchOutcome::Failed(e) => ResolveStep::Fail(ResolveError::Upstream(e)),
    }
}

/// The step after the store answered the create of `e`.
pub open spec fn after_create_spec<D>(e: Entity<D>, result: Result<(), StoreError>) -> ResolveStep<D> {
    match result {
        Ok(()) => ResolveStep::Done(Some(e)),
        Err(StoreError::Conflict) => ResolveStep::Reread,
        Err(err) => ResolveStep::Fail(ResolveError::Store(err)),
    }
}

/// The step after the store read that follows a conflict.
pub open spec fn after_reread_spec<D>(hit: Option<Entity<D>>) -> ResolveStep<D> {
    match hit {
        Some(e) => ResolveStep::Done(Some(e)),
        None => ResolveStep::Fail(ResolveError::Store(StoreError::Conflict)),
    }
}

/// A store hit is served as it is, with no freshness check; a miss goes
/// upstream.
pub fn after_lookup<D>(hit: Option<Entity<D>>) -> (r: ResolveStep<D>)
    ensures
        r == after_lookup_spec(hit),
{
    match hit {
        Some(e) => ResolveStep::Done(Some(e)),
        None => ResolveStep::FetchUpstream,
    }
}

/// A record found upstream at `now` becomes a new, not crawled entity to
/// create; an id unknown upstream ends the lookup with nothing stored; an
/// upstream failure fails it.
pub fn after_upstream<D>(outcome: FetchOutcome<D>, now: i64) -> (r: ResolveStep<D>)
    ensures
        r == after_upstream_spec(outcome, now),
{
    match outcome {
        FetchOutcome::Found(d) => ResolveStep::Create(Entity::discovered(d, now, false)),
        FetchOutcome::NotFound => ResolveStep::Done(None),
        FetchOutcome::Failed(e) => ResolveStep::Fail(ResolveError::Upstream(e)),
    }
}

/// A created entity is returned. A conflict means that another writer
/// created the id first: its entity is read back instead.
pub fn after_create<D>(e: Entity<D>, result: Result<(), StoreError>) -> (r: ResolveStep<D>)
    ensures
        r == after_create_spec(e, result),
{
    match result {
        Ok(()) => ResolveStep::Done(Some(e)),
        Err(StoreError::Conflict) => ResolveStep::Reread,
        Err(err) => ResolveStep::Fail(ResolveError::Store(err)),
    }
}

/// The entity read back after a conflict is returned; if the store does
/// not show it yet, the conflict is reported.
pub fn after_reread<D>(hit: Option<Entity<D>>) -> (r: ResolveStep<D>)
    ensures
        r == after_reread_spec(hit),
{
    match hit {
        Some(e) => ResolveStep::Done(Some(e)),
        None => ResolveStep::Fail(ResolveError::Store(StoreError::Conflict)),
    }
}

/// A lookup that missed in the store, carried on against `index` with the
/// given upstream answer: the index afterwards and the final step.
pub open spec fn resolve_after_miss<D>(index: IndexContents<D>, id: u32, upstream: FetchOutcome<D>, now: i64) -> (IndexContents<D>, ResolveStep<D>) {
    match after_upstream_spec(upstream, now) {
        ResolveStep::Create(e) => {
            let (next, result) = create_in(index, id, e);
            match after_create_spec(e, result) {
                ResolveStep::Reread => (next, after_reread_spec(get_from(next, id))),
                step => (next, step),
            }
        },
        step => (index, step),
    }
}

/// A whole lookup of `id` against `index`: the index afterwards and the
/// final step.
pub open spec fn resolve_spec<D>(index: IndexContents<D>, id: u32, upstream: FetchOutcome<D>, now: i64) -> (IndexContents<D>, ResolveStep<D>) {
    match after_lookup_spec(get_from(index, id)) {
        ResolveStep::FetchUpstream => resolve_after_miss(index, id, upstream, now),
        step => (index, step),
    }
}

/// Two lookups of an id that the store did not hold, one after the other,
/// return the same entity; only the first creates it, and nothing else in
/// the store changes.
pub proof fn lemma_resolution_idempotent<D>(index: IndexContents<D>, id: u32, data: D, now: i64, later: FetchOutcome<D>, later_now: i64)
    requires
        !index.contains_key(id),
    ensures
        ({
            let e = discovered_spec(data, now, false);
            let (first_index, first) = resolve_spec(index, id, FetchOutcome::Found(data), now);
            let (second_index, second) = resolve_spec(first_index, id, later, later_now);
            &&& first == ResolveStep::Done(Some(e))
            &&& first_index == index.insert(id, e)
            &&& second == first
            &&& second_index == first_index
        }),
{
}

/// Two lookups of an id that both missed in the store before either created
/// it: the first create wins, the second meets a conflict and returns the
/// winner's entity, so both return the same entity and one create succeeds.
pub proof fn lemma_racing_resolutions<D>(index: IndexContents<D>, id: u32, a: D, a_now: i64, b: D, b_now: i64)
    requires
        !index.contains_key(id),
    ensures
        ({
            let e = discovered_spec(a, a_now, false);
            let (after_a, result_a) = resolve_after_miss(index, id, FetchOutcome::Found(a), a_now);
            let (after_b, result_b) = resolve_after_miss(after_a, id, FetchOutcome::Found(b), b_now);
            &&& result_a == ResolveStep::Done(Some(e))
            &&& result_b == result_a
            &&& after_a == index.insert(id, e)
            &&& after_b == after_a
        }),
{
}

/// A lookup of an id unknown upstream returns nothing and stores nothing.
pub proof fn lemma_unknown_id_not_stored<D>(index: IndexContents<D>, id: u32, now: i64)
    requires
        !index.contains_key(id),
    ensures
        resolve_spec(index, id, FetchOutcome::NotFound, now) == (index, ResolveStep::<D>::Done(None)),
{
}

} // verus!
