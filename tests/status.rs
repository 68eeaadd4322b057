use beatmap_mirror::status::{Mode, RankedStatus};

#[test]
fn status_codes_round_trip() {
    for c in -3i8..=4 {
        let s = RankedStatus::from_i8(c).unwrap();
        assert_eq!(s.code(), c);
    }
    assert_eq!(RankedStatus::from_i8(-2), Some(RankedStatus::Graveyard));
    assert_eq!(RankedStatus::from_i8(3), Some(RankedStatus::Qualified));
    assert_eq!(RankedStatus::from_i8(5), None);
    assert_eq!(RankedStatus::from_i8(-4), None);
}

#[test]
fn mode_codes_round_trip() {
    for c in -1i8..=3 {
        assert_eq!(Mode::from_i8(c).unwrap().code(), c);
    }
    assert_eq!(Mode::from_i8(0), Some(Mode::Standard));
    assert_eq!(Mode::from_i8(4), None);
}

#[test]
fn final_statuses() {
    assert!(RankedStatus::Ranked.is_final());
    assert!(RankedStatus::Approved.is_final());
    assert!(RankedStatus::Loved.is_final());
    assert!(!RankedStatus::Qualified.is_final());
    assert!(!RankedStatus::Pending.is_final());
    assert_eq!(RankedStatus::non_final().len(), 4);
}
