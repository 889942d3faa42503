use basis::time::{
    localize, LocalizedTimestamp, TimeError, MAX_EPOCH_SECONDS, MIN_EPOCH_SECONDS,
    UTC8_OFFSET_SECONDS,
};

fn fields_of(t: LocalizedTimestamp) -> (i32, u8, u8, u8, u8, u8) {
    (t.year, t.month, t.day, t.hour, t.minute, t.second)
}

#[test]
fn localize_epoch_is_eight_in_the_morning() {
    let t = localize(0).unwrap();
    assert_eq!(t.epoch_seconds, 0);
    assert_eq!(fields_of(t), (1970, 1, 1, 8, 0, 0));
    assert_eq!(t.offset_seconds(), 28800);
    assert_eq!(UTC8_OFFSET_SECONDS, 28800);
}

#[test]
fn localize_known_instant() {
    let t = localize(1700000000).unwrap();
    assert_eq!(t.epoch_seconds, 1700000000);
    assert_eq!(fields_of(t), (2023, 11, 15, 6, 13, 20));
    assert_eq!(t.offset_seconds(), 28800);
}

#[test]
fn localize_is_pure() {
    let inputs = [
        i64::MIN,
        MIN_EPOCH_SECONDS - 1,
        MIN_EPOCH_SECONDS,
        -28801,
        -28800,
        -1,
        0,
        1,
        951782400,
        1700000000,
        MAX_EPOCH_SECONDS - UTC8_OFFSET_SECONDS,
        MAX_EPOCH_SECONDS,
        i64::MAX,
    ];
    for n in inputs {
        assert_eq!(localize(n), localize(n));
    }
}

#[test]
fn localize_out_of_range_is_reported() {
    assert_eq!(localize(i64::MAX), Err(TimeError::OutOfRange));
    assert_eq!(localize(i64::MIN), Err(TimeError::OutOfRange));
}

#[test]
fn localize_range_boundaries() {
    let last_good = MAX_EPOCH_SECONDS - UTC8_OFFSET_SECONDS;
    let t = localize(last_good).unwrap();
    assert_eq!(fields_of(t), (262142, 12, 31, 23, 59, 59));
    assert_eq!(localize(last_good + 1), Err(TimeError::OutOfRange));

    let t = localize(MIN_EPOCH_SECONDS).unwrap();
    assert_eq!(fields_of(t), (-262143, 1, 1, 8, 0, 0));
    assert_eq!(localize(MIN_EPOCH_SECONDS - 1), Err(TimeError::OutOfRange));
}

#[test]
fn localize_negative_epochs() {
    let t = localize(-1).unwrap();
    assert_eq!(fields_of(t), (1970, 1, 1, 7, 59, 59));

    let t = localize(-28800).unwrap();
    assert_eq!(fields_of(t), (1970, 1, 1, 0, 0, 0));

    let t = localize(-28801).unwrap();
    assert_eq!(fields_of(t), (1969, 12, 31, 23, 59, 59));
}

#[test]
fn localize_leap_day() {
    // 2000-02-29 00:00:00 UTC is epoch second 951782400; at +08:00 the wall
    // clock reads 08:00:00 on the leap day.
    let t = localize(951782400).unwrap();
    assert_eq!(fields_of(t), (2000, 2, 29, 8, 0, 0));
}
