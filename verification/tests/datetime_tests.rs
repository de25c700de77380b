use ue_types::datetime::{DateTime, TICKS_PER_DAY, TICKS_PER_SECOND};
use ue_types::timespan::Timespan;

#[test]
fn test_datetime_unix_round_trip() {
    let dt = DateTime::from_unix_timestamp(1000);
    assert_eq!(dt.ticks, 1000 * TICKS_PER_SECOND);
    assert_eq!(dt.to_unix_timestamp(), 1000);
    assert_eq!(dt.to_unix_timestamp_millis(), 1_000_000);

    let dm = DateTime::from_unix_timestamp_millis(1500);
    assert_eq!(dm.to_unix_timestamp_millis(), 1500);
    assert_eq!(dm.to_unix_timestamp(), 1);
}

#[test]
fn test_datetime_timespan_arithmetic() {
    let dt1 = DateTime::from_unix_timestamp(1000);
    let dt2 = DateTime::from_unix_timestamp(2000);

    let diff = dt2.difference(dt1);
    assert_eq!(diff.ticks, 1000 * TICKS_PER_SECOND);

    let dt3 = dt1.add_timespan(Timespan::from_ticks(500 * TICKS_PER_SECOND));
    assert_eq!(dt3.to_unix_timestamp(), 1500);

    let dt4 = dt3.sub_timespan(Timespan::from_ticks(500 * TICKS_PER_SECOND));
    assert_eq!(dt4, dt1);
}

#[test]
fn test_datetime_date_and_time_of_day() {
    let one_and_a_half_days = TICKS_PER_DAY + TICKS_PER_DAY / 2;
    let dt = DateTime::from_ticks(one_and_a_half_days);
    assert_eq!(dt.date().ticks, TICKS_PER_DAY);
    assert_eq!(dt.time_of_day().ticks, TICKS_PER_DAY / 2);

    // Truncation goes toward zero before the epoch.
    let before = DateTime::from_ticks(-(TICKS_PER_DAY / 2));
    assert_eq!(before.date().ticks, 0);
    assert_eq!(before.time_of_day().ticks, -(TICKS_PER_DAY / 2));
}

#[test]
fn test_datetime_now_is_after_2020() {
    // 2020-01-01 in Unix seconds.
    let year_2020 = 1_577_836_800;
    let now = DateTime::now();
    assert!(now.to_unix_timestamp() > year_2020);
}
