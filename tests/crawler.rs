use beatmap_mirror::bulk::UpstreamError;
use beatmap_mirror::crawler::{scan_found, Crawler, EntityKind, ScanAction, BEATMAP_BATCH_SIZE};
use beatmap_mirror::entity::stamp_crawled;

#[test]
fn empty_store_beatmapset_crawl_starts_at_one() {
    let mut c = Crawler::recover(EntityKind::Beatmapset, None, 2000, 60000);
    assert_eq!(c.next_id, 1);
    assert_eq!(c.next_batch(), vec![1]);
    assert_eq!(c.next_id, 2);
}

#[test]
fn empty_store_beatmap_crawl_scans_one_to_fifty() {
    let mut c = Crawler::recover(EntityKind::Beatmap, None, 2000, 60000);
    let ids = c.next_batch();
    assert_eq!(ids, (1..=50).collect::<Vec<u32>>());
    assert_eq!(c.next_id, 51);
    assert_eq!(c.next_batch(), (51..=100).collect::<Vec<u32>>());
}

#[test]
fn recovered_crawl_resumes_after_largest_crawled_id() {
    let mut c = Crawler::recover(EntityKind::Beatmap, Some(1000), 2000, 60000);
    assert_eq!(c.next_id, 1001);
    let ids = c.next_batch();
    assert_eq!(ids.len(), 50);
    assert_eq!(ids[0], 1001);
    assert_eq!(ids[49], 1050);
}

#[test]
fn cursor_advances_by_batch_whatever_is_found() {
    let mut c = Crawler::recover(EntityKind::Beatmap, None, 2000, 60000);
    let initial = c.next_id;
    let found = [0usize, 3, 0, 0, 50, 0, 1];
    for f in found {
        c.next_batch();
        c.record(f);
    }
    assert_eq!(c.next_id, initial + found.len() as u64 * BEATMAP_BATCH_SIZE);

    let mut s = Crawler::recover(EntityKind::Beatmapset, Some(7), 2000, 60000);
    for f in [0usize, 0, 1, 0] {
        s.next_batch();
        s.record(f);
    }
    assert_eq!(s.next_id, 12);
}

#[test]
fn record_chooses_persist_or_sleep() {
    let mut c = Crawler::recover(EntityKind::Beatmapset, None, 2000, 60000);
    assert_eq!(c.record(0), ScanAction::Sleep { millis: 4000 });
    assert_eq!(c.record(0), ScanAction::Sleep { millis: 16000 });
    assert_eq!(c.record(1), ScanAction::Persist);
    assert_eq!(c.backoff.delay, 2000);
    assert_eq!(c.record(0), ScanAction::Sleep { millis: 4000 });
}

#[test]
fn batch_is_cut_at_the_end_of_the_id_space() {
    let mut c = Crawler::recover(EntityKind::Beatmap, Some(u32::MAX - 3), 2000, 60000);
    let ids = c.next_batch();
    assert_eq!(ids, vec![u32::MAX - 2, u32::MAX - 1, u32::MAX]);
    assert!(c.next_batch().is_empty());
}

#[test]
fn batch_sizes_by_kind() {
    assert_eq!(Crawler::recover(EntityKind::Beatmap, None, 1, 1).batch_size(), 50);
    assert_eq!(Crawler::recover(EntityKind::Beatmapset, None, 1, 1).batch_size(), 1);
}

#[test]
fn crawled_items_are_stamped_in_order() {
    let stamped = stamp_crawled(vec!["a", "b"], 42);
    assert_eq!(stamped.len(), 2);
    assert_eq!(stamped[0].data, "a");
    assert_eq!(stamped[1].data, "b");
    for e in &stamped {
        assert_eq!(e.created_at, 42);
        assert_eq!(e.updated_at, 42);
        assert_eq!(e.last_checked, 42);
        assert!(e.crawled);
    }
}

#[test]
fn sleeps_never_exceed_max_even_when_start_does() {
    let mut c = Crawler::recover(EntityKind::Beatmapset, None, 90000, 60000);
    for found in [0usize, 0, 2, 0] {
        if let ScanAction::Sleep { millis } = c.record(found) {
            assert!(millis <= 60000);
        }
    }
}

#[test]
fn failed_scan_counts_as_empty() {
    let failed: Result<Vec<u32>, UpstreamError> = Err(UpstreamError { message: "rate limited".to_string() });
    assert!(scan_found(failed).is_empty());
    assert_eq!(scan_found::<u32>(Ok(vec![4, 5])), vec![4, 5]);
}

#[test]
fn nth_scan_asks_for_the_nth_batch() {
    let mut c = Crawler::recover(EntityKind::Beatmap, Some(9), 2000, 60000);
    for k in 0u32..4 {
        let ids = c.next_batch();
        assert_eq!(ids, (10 + 50 * k..10 + 50 * k + 50).collect::<Vec<u32>>());
        c.record((k % 2) as usize);
    }
}
