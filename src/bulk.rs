use vstd::prelude::*;

verus! {

/// An upstream fetch that failed for a reason other than the id being
/// unknown (network, server error, rate limit), with its description.
#[derive(Debug, Clone)]
pub struct UpstreamError {
    pub message: String,
}

/// The outcome of fetching one id from upstream.
#[derive(Debug, Clone)]
pub enum FetchOutcome<T> {
    Found(T),
    /// Upstream confirms that the id does not exist.
    NotFound,
    Failed(UpstreamError),
}

/// The items found among the outcomes, in order.
pub open spec fn found_items<T>(outcomes: Seq<FetchOutcome<T>>) -> Seq<T>
    decreases outcomes.len(),
{
    if outcomes.len() == 0 {
        Seq::empty()
    } else {
        let rest = found_items(outcomes.drop_last());
        match outcomes.last() {
            FetchOutcome::Found(t) => rest.push(t),
            _ => rest,
        }
    }
}

/// The error of the first failed outcome, if any failed.
pub open spec fn first_failure<T>(outcomes: Seq<FetchOutcome<T>>) -> Option<UpstreamError>
    decreases outcomes.len(),
{
    if outcomes.len() == 0 {
        None
    } else {
        match first_failure(outcomes.drop_last()) {
            Some(e) => Some(e),
            None => match outcomes.last() {
                FetchOutcome::Failed(e) => Some(e),
                _ => None,
            },
        }
    }
}

/// What a batch fetch returns for the outcomes of its single fetches.
pub open spec fn batch_result<T>(outcomes: Seq<FetchOutcome<T>>) -> Result<Seq<T>, UpstreamError> {
    match first_failure(outcomes) {
        Some(e) => Err(e),
        None => Ok(found_items(outcomes)),
    }
}

/// Collapses the outcomes of a batch of concurrent fetches, in the order of
/// their ids: the ids that upstream does not know are left out, and the
/// first failure fails the whole batch, with no partial list.
pub fn collect_batch<T>(outcomes: Vec<FetchOutcome<T>>) -> (r: Result<Vec<T>, UpstreamError>)
    ensures
        match batch_result(outcomes@) {
            Ok(items) => r matches Ok(v) && v@ == items,
            Err(e) => r matches Err(f) && f == e,
        },
{
    let ghost all = outcomes@;
    let mut items: Vec<T> = Vec::new();
    for o in it: outcomes
        invariant
            it.seq() == all,
            first_failure(all.take(it.index() as int)) is None,
            items@ == found_items(all.take(it.index() as int)),
    {
        let ghost i = it.index() as int;
        proof {
            assert(all.take(i + 1).drop_last() =~= all.take(i));
            assert(all.take(i + 1).last() == all[i]);
        }
        match o {
            FetchOutcome::Found(t) => items.push(t),
            FetchOutcome::NotFound => {},
            FetchOutcome::Failed(e) => {
                proof {
                    lemma_first_failure_extends(all, i + 1);
                }
                return Err(e);
            },
        }
    }
    proof {
        assert(all.take(all.len() as int) =~= all);
    }
    Ok(items)
}

/// Once a prefix of the outcomes has failed, every longer prefix reports the
/// same first failure.
proof fn lemma_first_failure_extends<T>(all: Seq<FetchOutcome<T>>, k: int)
    requires
        0 <= k <= all.len(),
    ensures
        first_failure(all.take(k)) is Some ==> first_failure(all) == first_failure(all.take(k)),
    decreases all.len() - k,
{
    if k < all.len() {
        lemma_first_failure_extends(all, k + 1);
        assert(all.take(k + 1).drop_last() =~= all.take(k));
    } else {
        assert(all.take(k) =~= all);
    }
}

} // verus!
