use filetime_type::{FileTime, FileTimeError, EPOCH_AS_FILETIME, NANOS_PER_TICK, TICKS_PER_SECOND};

#[test]
fn constants_have_their_values() {
    assert_eq!(TICKS_PER_SECOND, 10_000_000);
    assert_eq!(NANOS_PER_TICK, 100);
    assert_eq!(EPOCH_AS_FILETIME, 116_444_736_000_000_000);
}

#[test]
fn new_keeps_both_parts() {
    let ft = FileTime::new(13013971283, 1482830).unwrap();
    assert_eq!(ft.seconds(), 13013971283);
    assert_eq!(ft.subsecond_ticks(), 1482830);
    assert_eq!(ft.nanoseconds(), 148283000);
}

#[test]
fn new_keeps_parts_that_are_not_normalized() {
    let ft = FileTime::new(2, 25_000_000).unwrap();
    assert_eq!(ft.seconds(), 2);
    assert_eq!(ft.subsecond_ticks(), 25_000_000);
    assert_eq!(ft.filetime(), 45_000_000);
    assert_ne!(ft, FileTime::from_i64(45_000_000).unwrap());
}

#[test]
fn new_accepts_zero() {
    let ft = FileTime::new(0, 0).unwrap();
    assert_eq!(ft.seconds(), 0);
    assert_eq!(ft.subsecond_ticks(), 0);
    assert_eq!(ft.filetime(), 0);
}

#[test]
fn negative_parts_are_refused() {
    assert_eq!(FileTime::new(-1, 0), Err(FileTimeError::InvalidArgument));
    assert_eq!(FileTime::new(0, -1), Err(FileTimeError::InvalidArgument));
    assert_eq!(FileTime::new(-1, -1), Err(FileTimeError::InvalidArgument));
    assert_eq!(FileTime::new(i64::MIN, 5), Err(FileTimeError::InvalidArgument));
}

#[test]
fn negative_tick_counts_are_refused() {
    assert_eq!(FileTime::from_i64(-1), Err(FileTimeError::InvalidArgument));
    assert_eq!(FileTime::from_i64(i64::MIN), Err(FileTimeError::InvalidArgument));
}

#[test]
fn from_i64_splits_at_the_second() {
    let ft = FileTime::from_i64(128930364000001000).unwrap();
    assert_eq!(ft.seconds(), 12893036400);
    assert_eq!(ft.subsecond_ticks(), 1000);
    assert_eq!(ft.nanoseconds(), 100_000);

    let last_tick = FileTime::from_i64(9_999_999).unwrap();
    assert_eq!(last_tick.seconds(), 0);
    assert_eq!(last_tick.subsecond_ticks(), 9_999_999);

    let first_second = FileTime::from_i64(10_000_000).unwrap();
    assert_eq!(first_second.seconds(), 1);
    assert_eq!(first_second.subsecond_ticks(), 0);
}

#[test]
fn from_i64_of_the_largest_count() {
    let ft = FileTime::from_i64(i64::MAX).unwrap();
    assert_eq!(ft.seconds(), 922337203685);
    assert_eq!(ft.subsecond_ticks(), 4775807);
    assert_eq!(ft.nanoseconds(), 477580700);
    assert_eq!(ft.filetime(), i64::MAX);
}

#[test]
fn raw_ticks_round_trip() {
    for ticks in [
        0_i64,
        1,
        99,
        9_999_999,
        10_000_000,
        10_000_001,
        116_444_736_000_000_000,
        128930364000001000,
        130139712831482830,
        i64::MAX - 1,
        i64::MAX,
    ] {
        assert_eq!(FileTime::from_i64(ticks).unwrap().filetime(), ticks);
    }
}

#[test]
fn normalized_parts_round_trip() {
    let ft = FileTime::new(13013971283, 1482830).unwrap();
    assert_eq!(FileTime::from_i64(ft.filetime()).unwrap(), ft);
}

#[test]
fn equality_compares_both_parts() {
    assert_eq!(FileTime::new(1, 2).unwrap(), FileTime::new(1, 2).unwrap());
    assert_ne!(FileTime::new(1, 2).unwrap(), FileTime::new(1, 3).unwrap());
    assert_ne!(FileTime::new(1, 2).unwrap(), FileTime::new(2, 2).unwrap());
    assert_ne!(FileTime::new(1, 0).unwrap(), FileTime::new(0, 10_000_000).unwrap());
}

#[test]
fn fits_i64_tells_where_the_count_ends() {
    assert!(FileTime::from_i64(i64::MAX).unwrap().fits_i64());
    assert!(FileTime::new(922337203685, 4775807).unwrap().fits_i64());
    assert!(!FileTime::new(922337203685, 4775808).unwrap().fits_i64());
    assert!(!FileTime::new(922337203686, 0).unwrap().fits_i64());
    assert!(!FileTime::new(i64::MAX, i64::MAX).unwrap().fits_i64());
    assert!(FileTime::new(0, i64::MAX).unwrap().fits_i64());
}
