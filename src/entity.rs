use vstd::prelude::*;

verus! {

/// One stored record: the verbatim upstream record `data` together with the
/// local provenance timestamps, in milliseconds since the Unix epoch.
///
/// `crawled` tells items found by the forward crawl from items that an
/// on-demand lookup brought in.
#[derive(Debug, Clone)]
pub struct Entity<D> {
    pub data: D,
    pub created_at: i64,
    pub updated_at: i64,
    pub last_checked: i64,
    pub crawled: bool,
}

/// The entity that is stored when `data` is first observed upstream at `now`.
pub open spec fn discovered_spec<D>(data: D, now: i64, crawled: bool) -> Entity<D> {
    Entity { data, created_at: now, updated_at: now, last_checked: now, crawled }
}

impl<D> Entity<D> {
    /// A freshly observed upstream record, with every timestamp set to `now`.
    pub fn discovered(data: D, now: i64, crawled: bool) -> (r: Entity<D>)
        ensures
            r == discovered_spec(data, now, crawled),
    {
        Entity { data, created_at: now, updated_at: now, last_checked: now, crawled }
    }
}

/// Stamps every record that a crawl scan found, keeping their order.
pub fn stamp_crawled<D>(items: Vec<D>, now: i64) -> (r: Vec<Entity<D>>)
    ensures
        r@.len() == items@.len(),
        forall|i: int| 0 <= i < r@.len() ==> #[trigger] r@[i] == discovered_spec(items@[i], now, true),
{
    let mut r: Vec<Entity<D>> = Vec::with_capacity(items.len());
    for d in it: items
        invariant
            r@.len() == it.index(),
            forall|i: int| 0 <= i < r@.len() ==> #[trigger] r@[i] == discovered_spec(it.seq()[i], now, true),
    {
        r.push(Entity::discovered(d, now, true));
    }
    r
}

} // verus!
