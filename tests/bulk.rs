use beatmap_mirror::bulk::{collect_batch, FetchOutcome, UpstreamError};

fn failure(m: &str) -> UpstreamError {
    UpstreamError { message: m.to_string() }
}

#[test]
fn not_found_ids_are_dropped() {
    let r = collect_batch(vec![
        FetchOutcome::Found("item1"),
        FetchOutcome::NotFound,
        FetchOutcome::Found("item3"),
    ]);
    assert_eq!(r.unwrap(), vec!["item1", "item3"]);
}

#[test]
fn one_failure_fails_the_whole_batch() {
    let r = collect_batch(vec![FetchOutcome::Found(1u32), FetchOutcome::Failed(failure("timeout"))]);
    assert_eq!(r.unwrap_err().message, "timeout");
}

#[test]
fn first_failure_is_reported() {
    let r = collect_batch(vec![
        FetchOutcome::NotFound,
        FetchOutcome::Failed(failure("first")),
        FetchOutcome::Found(3u32),
        FetchOutcome::Failed(failure("second")),
    ]);
    assert_eq!(r.unwrap_err().message, "first");
}

#[test]
fn empty_and_all_missing_batches_give_empty_lists() {
    assert!(collect_batch(Vec::<FetchOutcome<u32>>::new()).unwrap().is_empty());
    assert!(collect_batch(vec![FetchOutcome::<u32>::NotFound, FetchOutcome::NotFound]).unwrap().is_empty());
}
