use ptv::model::{Timestamp, MAX_OFFSET_SECONDS};

#[test]
fn timestamp_keeps_its_parts() {
    let t = Timestamp::new(1_672_876_800, 500, 36_000).unwrap();
    assert_eq!(t.unix_seconds(), 1_672_876_800);
    assert_eq!(t.nanosecond(), 500);
    assert_eq!(t.offset_seconds(), 36_000);
}

#[test]
fn timestamp_rejects_out_of_range_parts() {
    assert!(Timestamp::new(0, 1_000_000_000, 0).is_none());
    assert!(Timestamp::new(0, 999_999_999, 0).is_some());
    assert!(Timestamp::new(0, 0, MAX_OFFSET_SECONDS).is_some());
    assert!(Timestamp::new(0, 0, -MAX_OFFSET_SECONDS).is_some());
    assert!(Timestamp::new(0, 0, MAX_OFFSET_SECONDS + 1).is_none());
    assert!(Timestamp::new(0, 0, -MAX_OFFSET_SECONDS - 1).is_none());
}
