use vstd::prelude::*;
use crate::backoff::{Backoff, backoff_run, backoff_step};
use crate::bulk::UpstreamError;

verus! {

/// The two kinds of catalog entity, each crawled by its own loop.
#[derive(Debug, Clone, Copy, PartialEq, Eq, Structural)]
pub enum EntityKind {
    /// Single beatmaps, scanned in batches.
    Beatmap,
    /// Beatmap sets, scanned one id at a time.
    Beatmapset,
}

/// How many consecutive ids one scan of a beatmap crawl covers.
pub const BEATMAP_BATCH_SIZE: u64 = 50;

/// How many ids one scan of the given kind covers.
pub open spec fn batch_size_spec(kind: EntityKind) -> u64 {
    match kind {
        EntityKind::Beatmap => BEATMAP_BATCH_SIZE,
        EntityKind::Beatmapset => 1,
    }
}

/// The state of one forward crawl: the next upstream id to scan and the
/// backoff. It lives in memory only and is recovered from the store when
/// the loop starts.
#[derive(Debug, Clone, Copy, PartialEq, Eq, Structural)]
pub struct Crawler {
    pub kind: EntityKind,
    pub next_id: u64,
    pub backoff: Backoff,
}

/// What the loop does after a scan.
#[derive(Debug, Clone, Copy, PartialEq, Eq, Structural)]
pub enum ScanAction {
    /// Store what was found, then scan again at once.
    Persist,
    /// Wait this many milliseconds, then scan again.
    Sleep { millis: u64 },
}

/// The first id to scan, given the largest id among crawled entities in the
/// store (`None` when there is none).
pub open spec fn recovered_next_id(max_crawled_id: Option<u32>) -> u64 {
    match max_crawled_id {
        Some(m) => (m + 1) as u64,
        None => 1,
    }
}

/// How many of the `batch` ids from `next_id` on are upstream ids (fit in `u32`).
pub open spec fn scan_len(next_id: u64, batch: u64) -> nat {
    if next_id > u32::MAX {
        0
    } else if next_id + batch <= u32::MAX + 1 {
        batch as nat
    } else {
        (u32::MAX + 1 - next_id) as nat
    }
}

/// The ids that one scan from `next_id` asks upstream for, in order.
pub open spec fn scan_ids_spec(next_id: u64, batch: u64) -> Seq<u32> {
    Seq::new(scan_len(next_id, batch), |i: int| (next_id + i) as u32)
}

/// The crawl state after one scan that found something (`found`) or nothing.
/// The cursor advances by a whole batch either way.
pub open spec fn scan_step(c: Crawler, found: bool) -> Crawler {
    Crawler {
        next_id: (c.next_id + batch_size_spec(c.kind)) as u64,
        backoff: backoff_step(c.backoff, found),
        ..c
    }
}

/// The crawl state after a run of scans, `found[i]` telling whether scan `i`
/// found anything.
pub open spec fn scan_run(c: Crawler, found: Seq<bool>) -> Crawler
    decreases found.len(),
{
    if found.len() == 0 {
        c
    } else {
        scan_step(scan_run(c, found.drop_last()), found.last())
    }
}

impl Crawler {
    /// The crawl state at loop start, recovered from the largest id among
    /// the crawled entities of the store; scanning starts right after it,
    /// or at id 1 in an empty store.
    pub fn recover(kind: EntityKind, max_crawled_id: Option<u32>, backoff_start: u64, max_backoff: u64) -> (r: Crawler)
        ensures
            r.kind == kind,
            r.next_id == recovered_next_id(max_crawled_id),
            r.backoff == Backoff::new_spec(backoff_start, max_backoff),
    {
        let next_id: u64 = match max_crawled_id {
            Some(m) => m as u64 + 1,
            None => 1,
        };
        Crawler { kind, next_id, backoff: Backoff::new(backoff_start, max_backoff) }
    }

    /// How many ids one scan covers.
    pub fn batch_size(&self) -> (r: u64)
        ensures
            r == batch_size_spec(self.kind),
    {
        match self.kind {
            EntityKind::Beatmap => BEATMAP_BATCH_SIZE,
            EntityKind::Beatmapset => 1,
        }
    }

    /// Starts a scan: returns the ids to fetch and moves the cursor past
    /// them, whatever the scan will find.
    pub fn next_batch(&mut self) -> (r: Vec<u32>)
        requires
            old(self).next_id + batch_size_spec(old(self).kind) <= u64::MAX,
        ensures
            r@ == scan_ids_spec(old(self).next_id, batch_size_spec(old(self).kind)),
            *final(self) == (Crawler {
                next_id: (old(self).next_id + batch_size_spec(old(self).kind)) as u64,
                ..*old(self)
            }),
    {
        let batch = self.batch_size();
        let start = self.next_id;
        let mut ids: Vec<u32> = Vec::new();
        let mut i: u64 = 0;
        while i < batch && start + i <= u32::MAX as u64
            invariant
                i <= batch,
                start + batch <= u64::MAX,
                start <= u32::MAX + 1 || i == 0,
                i <= scan_len(start, batch),
                ids@ =~= scan_ids_spec(start, batch).take(i as int),
            decreases batch - i,
        {
            ids.push((start + i) as u32);
            i = i + 1;
        }
        assert(ids@ =~= scan_ids_spec(start, batch));
        self.next_id = start + batch;
        ids
    }

    /// Ends a scan that found `found` items: resets the backoff and persists
    /// them, or grows the backoff and sleeps.
    pub fn record(&mut self, found: usize) -> (r: ScanAction)
        ensures
            *final(self) == (Crawler { backoff: backoff_step(old(self).backoff, found > 0), ..*old(self) }),
            found > 0 ==> r == ScanAction::Persist,
            found == 0 ==> r == (ScanAction::Sleep { millis: final(self).backoff.delay }),
    {
        if found > 0 {
            self.backoff.reset();
            ScanAction::Persist
        } else {
            self.backoff.grow();
            ScanAction::Sleep { millis: self.backoff.delay }
        }
    }
}

/// The items that a scan found: a failed fetch counts as an empty scan, so
/// that one upstream failure makes the crawl back off instead of stopping.
pub fn scan_found<T>(fetched: Result<Vec<T>, UpstreamError>) -> (r: Vec<T>)
    ensures
        match fetched {
            Ok(items) => r@ == items@,
            Err(_) => r@.len() == 0,
        },
{
    match fetched {
        Ok(items) => items,
        Err(_) => Vec::new(),
    }
}

/// After any run of scans the cursor has moved by exactly one batch per
/// scan, however many of them were empty.
pub proof fn lemma_cursor_advances(c: Crawler, found: Seq<bool>)
    requires
        c.next_id + found.len() * batch_size_spec(c.kind) <= u64::MAX,
    ensures
        scan_run(c, found).next_id == c.next_id + found.len() * batch_size_spec(c.kind),
        scan_run(c, found).kind == c.kind,
        scan_run(c, found).backoff == backoff_run(c.backoff, found),
    decreases found.len(),
{
    if found.len() > 0 {
        let b = batch_size_spec(c.kind);
        assert((found.len() - 1) * b <= found.len() * b) by (nonlinear_arith)
            requires
                found.len() >= 1,
        {
        }
        lemma_cursor_advances(c, found.drop_last());
        assert((found.len() - 1) * b + b == found.len() * b) by (nonlinear_arith);
    }
}

/// The scan after `k` earlier scans, empty or not, asks for the batch that
/// starts `k` batches after the first: the ids `next_id + k * batch` onwards,
/// so no id is asked for twice and none is skipped.
pub proof fn lemma_scan_ids_after(c: Crawler, found: Seq<bool>)
    requires
        c.next_id + (found.len() + 1) * batch_size_spec(c.kind) <= u64::MAX,
    ensures
        ({
            let b = batch_size_spec(c.kind);
            let first = c.next_id + found.len() * b;
            &&& scan_ids_spec(scan_run(c, found).next_id, b) == scan_ids_spec(first as u64, b)
            &&& first + b <= u32::MAX + 1 ==> scan_ids_spec(scan_run(c, found).next_id, b)
                =~= Seq::new(b as nat, |i: int| (first + i) as u32)
        }),
{
    let b = batch_size_spec(c.kind);
    assert(found.len() * b <= (found.len() + 1) * b) by (nonlinear_arith);
    lemma_cursor_advances(c, found);
}

/// A crawl recovered from a store with no crawled entity scans id 1 first
/// (beatmap sets), or the ids 1 to 50 (beatmaps).
pub proof fn lemma_fresh_crawl_starts_at_one(kind: EntityKind)
    ensures
        scan_ids_spec(recovered_next_id(None), batch_size_spec(kind))
            =~= Seq::new(batch_size_spec(kind) as nat, |i: int| (i + 1) as u32),
{
}

} // verus!
