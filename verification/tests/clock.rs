use cosmic_nightlight::clock::{
    compose_time, format_time, hour_labels, is_night_at, minute_labels, minute_of_day,
    now_minute_of_day, split_time, to_hour24, LocalNow, MINUTES_PER_DAY,
};

#[test]
fn times_round_trip_through_split_and_compose() {
    for minutes in 0..MINUTES_PER_DAY {
        let (hour, minute) = split_time(minutes);
        assert_eq!(compose_time(hour, minute), minutes);
    }
}

#[test]
fn times_out_of_range_are_brought_into_a_day() {
    assert_eq!(split_time(MINUTES_PER_DAY + 61), (1, 1));
    assert_eq!(compose_time(99, 99), 23 * 60 + 59);
}

#[test]
fn formats_times_in_both_clock_modes() {
    assert_eq!(format_time(0, false), "12:00AM");
    assert_eq!(format_time(0, true), "00:00");
    assert_eq!(format_time(12 * 60 + 5, false), "12:05PM");
    assert_eq!(format_time(21 * 60 + 45, false), "9:45PM");
    assert_eq!(format_time(21 * 60 + 45, true), "21:45");
    assert_eq!(format_time(23 * 60 + 59, false), "11:59PM");
}

#[test]
fn twelve_hour_positions_map_to_the_right_hour() {
    assert_eq!(to_hour24(0, false), 0, "12AM");
    assert_eq!(to_hour24(0, true), 12, "12PM");
    assert_eq!(to_hour24(9, false), 9, "9AM");
    assert_eq!(to_hour24(9, true), 21, "9PM");
    assert_eq!(to_hour24(11, true), 23, "11PM");
}

#[test]
fn twelve_hour_positions_round_trip() {
    for hour in 0..24 {
        let index = hour % 12;
        assert_eq!(to_hour24(index, hour >= 12), hour, "hour {hour}");
    }
}

#[test]
fn hour_labels_cover_both_clock_modes() {
    assert_eq!(hour_labels(true).first().map(String::as_str), Some("00"));
    assert_eq!(hour_labels(true).len(), 24);
    assert_eq!(hour_labels(false).first().map(String::as_str), Some("12"));
    assert_eq!(hour_labels(false).last().map(String::as_str), Some("11"));
    assert_eq!(hour_labels(false).len(), 12);
}

#[test]
fn minute_labels_cover_the_hour() {
    let labels = minute_labels();
    assert_eq!(labels.len(), 60);
    assert_eq!(labels[7], "07");
    assert_eq!(labels[59], "59");
}

#[test]
fn the_clock_reads_as_a_time_of_day() {
    let now = LocalNow {
        year: 2026,
        ordinal: 100,
        hour: 21,
        minute: 45,
    };
    assert_eq!(minute_of_day(now), 21 * 60 + 45);
    assert!(now_minute_of_day() < MINUTES_PER_DAY);
}

#[test]
fn swapping_the_ends_swaps_day_and_night() {
    for minute in [0, 299, 300, 720, 1259, 1260, 1439] {
        assert_ne!(
            is_night_at(minute, 300, 1260),
            is_night_at(minute, 1260, 300)
        );
    }
}
