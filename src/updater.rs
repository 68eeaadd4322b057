use vstd::prelude::*;
use crate::entity::Entity;
use crate::status::{RankedStatus, status_is_final};

verus! {

/// An entity is re-validated once its last check is at least this old.
pub const STALE_AFTER_MILLIS: i64 = 86_400_000;

/// How many stale entities one refresh cycle asks the store for.
pub const REFRESH_BATCH_SIZE: u64 = 100;

/// An entity is stale when its status is not final and it was last checked
/// at least a day before `now`.
pub open spec fn is_stale_spec(status: RankedStatus, last_checked: int, now: int) -> bool {
    !status_is_final(status) && last_checked <= now - STALE_AFTER_MILLIS
}

/// Whether an entity with this status and last check is due for re-validation.
pub fn is_stale(status: RankedStatus, last_checked: i64, now: i64) -> (r: bool)
    ensures
        r == is_stale_spec(status, last_checked as int, now as int),
        status_is_final(status) ==> !r,
{
    !status.is_final() && (last_checked as i128) <= (now as i128) - (STALE_AFTER_MILLIS as i128)
}

/// The store query of one refresh cycle: entities whose status is one of
/// `statuses` and whose `last_checked` is at most `checked_until`, at most
/// `size` of them.
#[derive(Debug, Clone)]
pub struct StalenessFilter {
    pub statuses: Vec<RankedStatus>,
    pub checked_until: i64,
    pub size: u64,
}

/// The query that selects exactly the entities that are stale at `now`.
pub fn staleness_filter(now: i64) -> (r: StalenessFilter)
    requires
        now >= i64::MIN + STALE_AFTER_MILLIS,
    ensures
        forall|s: RankedStatus, t: i64|
            (r.statuses@.contains(s) && t <= r.checked_until) <==> #[trigger] is_stale_spec(s, t as int, now as int),
        r.statuses@.no_duplicates(),
        r.size == REFRESH_BATCH_SIZE,
{
    StalenessFilter {
        statuses: RankedStatus::non_final(),
        checked_until: now - STALE_AFTER_MILLIS,
        size: REFRESH_BATCH_SIZE,
    }
}

/// A non-final entity last checked 25 hours before `now` is stale, one last
/// checked an hour before is not, and a final one never is, however long
/// ago it was checked.
pub proof fn lemma_staleness_selection(status: RankedStatus, now: int, last_checked: int)
    ensures
        !status_is_final(status) ==> is_stale_spec(status, now - 25 * 3_600_000, now),
        !is_stale_spec(status, now - 3_600_000, now),
        status_is_final(status) ==> !is_stale_spec(status, last_checked, now),
{
}

/// What re-fetching a stored entity's record from upstream gave.
#[derive(Debug, Clone)]
pub enum Refetch<D> {
    /// Upstream no longer knows the id.
    Missing,
    /// Upstream returned a record equal to the stored one.
    Unchanged,
    /// Upstream returned a record that differs from the stored one.
    Changed(D),
}

/// The entity to write back after a re-fetch at `now`, if any.
pub open spec fn refresh_spec<D>(entity: Entity<D>, refetch: Refetch<D>, now: i64) -> Option<Entity<D>> {
    match refetch {
        Refetch::Missing => None,
        Refetch::Unchanged => Some(Entity { last_checked: now, ..entity }),
        Refetch::Changed(d) => Some(Entity { data: d, updated_at: now, last_checked: now, ..entity }),
    }
}

/// Applies one re-validation to a stored entity.
///
/// A record that upstream no longer knows leaves the entity as it is
/// (`None`: nothing to write). Otherwise the check time advances to `now`;
/// the record and `updated_at` change only when the record did.
pub fn refresh<D>(entity: Entity<D>, refetch: Refetch<D>, now: i64) -> (r: Option<Entity<D>>)
    ensures
        r == refresh_spec(entity, refetch, now),
        refetch is Missing <==> r is None,
        r matches Some(e) ==> e.last_checked == now && e.created_at == entity.created_at
            && e.crawled == entity.crawled,
        refetch is Unchanged ==> (r matches Some(e) && e.data == entity.data
            && e.updated_at == entity.updated_at),
        refetch matches Refetch::Changed(d) ==> (r matches Some(e) && e.data == d && e.updated_at == now),
{
    match refetch {
        Refetch::Missing => None,
        Refetch::Unchanged => {
            let mut e = entity;
            e.last_checked = now;
            Some(e)
        },
        Refetch::Changed(d) => {
            let mut e = entity;
            e.data = d;
            e.updated_at = now;
            e.last_checked = now;
            Some(e)
        },
    }
}

} // verus!
