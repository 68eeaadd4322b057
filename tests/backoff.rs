use beatmap_mirror::backoff::Backoff;

#[test]
fn new_backoff_starts_at_start() {
    let b = Backoff::new(2000, 60000);
    assert_eq!(b.delay, 2000);
    assert_eq!(b.start, 2000);
    assert_eq!(b.max, 60000);
}

#[test]
fn empty_scans_square_the_delay_up_to_max() {
    let mut b = Backoff::new(2000, 60000);
    let mut seen = vec![b.delay];
    for _ in 0..5 {
        b.grow();
        seen.push(b.delay);
    }
    // 2 s, 4 s, 16 s, then 256 s capped at 60 s.
    assert_eq!(seen, vec![2000, 4000, 16000, 60000, 60000, 60000]);
    for w in seen.windows(2) {
        assert!(w[0] <= w[1]);
    }
    assert!(seen.iter().all(|d| *d <= 60000));
}

#[test]
fn fractional_seconds_are_squared_too() {
    let mut b = Backoff::new(1500, 10000);
    b.grow();
    assert_eq!(b.delay, 2250);
    b.grow();
    assert_eq!(b.delay, 5062);
}

#[test]
fn found_resets_to_exactly_start() {
    let mut b = Backoff::new(2000, 60000);
    b.grow();
    b.grow();
    assert_eq!(b.delay, 16000);
    b.reset();
    assert_eq!(b.delay, 2000);
    b.grow();
    assert_eq!(b.delay, 4000);
}

#[test]
fn start_above_max_is_capped_on_first_empty_scan() {
    let mut b = Backoff::new(90000, 60000);
    b.grow();
    assert_eq!(b.delay, 60000);
    b.grow();
    assert_eq!(b.delay, 60000);
    b.reset();
    assert_eq!(b.delay, 90000);
    b.grow();
    assert_eq!(b.delay, 60000);
}

#[test]
fn delay_at_max_stays_at_max() {
    let mut b = Backoff::new(60000, 60000);
    b.grow();
    assert_eq!(b.delay, 60000);
}

#[test]
fn huge_delays_do_not_overflow() {
    let mut b = Backoff::new(u64::MAX - 1, u64::MAX);
    b.grow();
    assert_eq!(b.delay, u64::MAX);
}
