use zero2prod::draws::{clock_micros, draw_uuid, micros_to_i64};

#[test]
fn micros_within_i64_are_kept() {
    assert_eq!(micros_to_i64(0), Some(0));
    assert_eq!(micros_to_i64(1_700_000_000_000_000), Some(1_700_000_000_000_000));
    assert_eq!(micros_to_i64(i64::MAX as u128), Some(i64::MAX));
}

#[test]
fn micros_past_i64_are_refused() {
    assert_eq!(micros_to_i64(i64::MAX as u128 + 1), None);
    assert_eq!(micros_to_i64(u128::MAX), None);
}

#[test]
fn the_clock_reads_after_the_epoch() {
    let t = clock_micros().unwrap();
    assert!(t > 1_600_000_000_000_000);
}

#[test]
fn drawn_uuids_are_version_4() {
    let id = uuid::Uuid::from_u128(draw_uuid().unwrap());
    assert_eq!(id.get_version_num(), 4);
    assert_eq!(id.get_variant(), uuid::Variant::RFC4122);
}
