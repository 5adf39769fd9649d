use locator_admin_rust::timestamp::{
    is_representable, midnight_utc, Timestamp, MAX_OFFSET_SECONDS, MAX_UNIX_SECONDS,
    MIN_UNIX_SECONDS, NANOS_PER_DAY, NANOS_PER_SECOND,
};
use time::{OffsetDateTime, UtcOffset};

#[test]
fn library_bounds_match_the_time_crate() {
    assert!(OffsetDateTime::from_unix_timestamp(MIN_UNIX_SECONDS as i64).is_ok());
    assert!(OffsetDateTime::from_unix_timestamp(MIN_UNIX_SECONDS as i64 - 1).is_err());
    assert!(OffsetDateTime::from_unix_timestamp(MAX_UNIX_SECONDS as i64).is_ok());
    assert!(OffsetDateTime::from_unix_timestamp(MAX_UNIX_SECONDS as i64 + 1).is_err());
    assert!(UtcOffset::from_whole_seconds(MAX_OFFSET_SECONDS).is_ok());
    assert!(UtcOffset::from_whole_seconds(MAX_OFFSET_SECONDS + 1).is_err());
    assert!(UtcOffset::from_whole_seconds(-MAX_OFFSET_SECONDS).is_ok());
}

#[test]
fn midnight_matches_floor_of_local_day() {
    let samples: [(i128, i32); 7] = [
        (0, 0),
        (1_696_687_746_173_000_123, 0),
        (1_696_687_746_173_000_123, -18_000),
        (1_696_721_400 * NANOS_PER_SECOND, 7_200),
        (-1, 0),
        (-86_400 * NANOS_PER_SECOND, 3_600),
        (MIN_UNIX_SECONDS * NANOS_PER_SECOND + NANOS_PER_DAY, -3_600),
    ];
    for (nanos, offset) in samples {
        let t = Timestamp { unix_nanos: nanos, offset_seconds: offset };
        assert!(is_representable(t));
        let m = midnight_utc(t);
        let local = nanos + offset as i128 * NANOS_PER_SECOND;
        assert_eq!(m.unix_nanos, local.div_euclid(NANOS_PER_DAY) * NANOS_PER_DAY, "{} {}", nanos, offset);
        assert_eq!(m.offset_seconds, 0);
    }
}
