use cosmic_nightlight::solar::{
    coordinates_for, current, days_in_year, find_zone, have_location, instant_of, local_date,
    minutes_shown, parse_angle, parse_coordinates, remember, sun_times, sun_times_on,
    timezone_name, to_local_minutes, today, Angle,
    CalendarDate, Coordinates, SunTimes, FIRST_YEAR, LAST_YEAR, ZONE_TABLES,
};

/// Two rows in each of the table's two shapes: seconds present and omitted.
const TABLE: &str = "\
#codes\tcoordinates\tTZ\tcomments
US\t+404251-0740023\tAmerica/New_York\tEastern (most areas)
CA\t+4439-06336\tAmerica/Halifax\tAtlantic - NS (most areas), PE
";

fn degrees(angle: Angle) -> f64 {
    let magnitude =
        angle.degrees as f64 + angle.minutes as f64 / 60.0 + angle.seconds as f64 / 3600.0;
    if angle.negative {
        -magnitude
    } else {
        magnitude
    }
}

fn close(actual: f64, expected: f64, tolerance: f64, what: &str) {
    assert!(
        (actual - expected).abs() < tolerance,
        "{what}: got {actual}, expected about {expected}"
    );
}

#[test]
fn coordinates_parse_with_seconds() {
    let at = find_zone(TABLE, "America/New_York").expect("New York is in the table");
    close(degrees(at.latitude), 40.7142, 0.001, "latitude");
    close(degrees(at.longitude), -74.0064, 0.001, "longitude");
}

#[test]
fn coordinates_parse_without_seconds() {
    let at = find_zone(TABLE, "America/Halifax").expect("Halifax is in the table");
    close(degrees(at.latitude), 44.65, 0.001, "latitude");
    close(degrees(at.longitude), -63.6, 0.001, "longitude");
}

#[test]
fn an_unlisted_zone_is_not_invented() {
    assert_eq!(find_zone(TABLE, "Mars/Olympus_Mons"), None);
    assert_eq!(find_zone(TABLE, "#codes"), None, "the header is not a zone");
}

#[test]
fn malformed_coordinates_are_rejected() {
    assert_eq!(parse_coordinates(""), None);
    assert_eq!(parse_coordinates("+4042"), None, "no longitude");
    assert_eq!(parse_coordinates("404251-0740023"), None, "no leading sign");
    assert_eq!(parse_coordinates("+40425x-0740023"), None, "not digits");
}

#[test]
fn angles_parse_digit_by_digit() {
    assert_eq!(
        parse_angle("-0740023", 3),
        Some(Angle {
            negative: true,
            degrees: 74,
            minutes: 0,
            seconds: 23,
        })
    );
    assert_eq!(
        parse_angle("+4439", 2),
        Some(Angle {
            negative: false,
            degrees: 44,
            minutes: 39,
            seconds: 0,
        })
    );
    assert_eq!(parse_angle("+443", 2), None);
}

#[test]
fn the_first_table_with_the_zone_is_believed() {
    let tables = vec![
        None,
        Some("XX\t+0000+00000\tOther/Place".to_owned()),
        Some(TABLE.to_owned()),
    ];
    assert!(coordinates_for(&tables, "America/Halifax").is_some());
    assert_eq!(coordinates_for(&tables, "Nowhere"), None);
    assert_eq!(coordinates_for(&Vec::new(), "America/Halifax"), None);
    assert_eq!(ZONE_TABLES[0], "/usr/share/zoneinfo/zone1970.tab");
}

#[test]
fn the_zone_name_comes_from_the_link_first() {
    let link = Some("/usr/share/zoneinfo/America/Chicago".to_owned());
    let file = Some("Europe/Oslo\n".to_owned());
    assert_eq!(timezone_name(&link, &file).as_deref(), Some("America/Chicago"));
    assert_eq!(timezone_name(&None, &file).as_deref(), Some("Europe/Oslo"));
    assert_eq!(
        timezone_name(&Some("/elsewhere".to_owned()), &file).as_deref(),
        Some("Europe/Oslo")
    );
    assert_eq!(timezone_name(&None, &Some(" \n".to_owned())), None);
    assert_eq!(timezone_name(&None, &None), None);
}

const MARCH_15: CalendarDate = CalendarDate {
    year: 2026,
    ordinal: 74,
};

#[test]
fn a_day_without_sun_has_no_times() {
    let june_21 = CalendarDate {
        year: 2026,
        ordinal: 172,
    };
    assert_eq!(sun_times_on(june_21, None), None, "polar day");
    let december_21 = CalendarDate {
        year: 2026,
        ordinal: 355,
    };
    assert_eq!(sun_times_on(december_21, None), None, "polar night");
}

#[test]
fn times_land_inside_a_single_day() {
    // New York in mid March: sunrise 11:07 UTC, sunset 23:03 UTC.
    let utc = Some((11 * 3600 + 7 * 60, 23 * 3600 + 3 * 60));
    let times = sun_times_on(MARCH_15, utc).expect("a March sunrise");
    assert!(times.sunrise_minutes < 24 * 60, "{times:?}");
    assert!(times.sunset_minutes < 24 * 60, "{times:?}");
    // The first of the two is the sunrise.
    assert_eq!(
        to_local_minutes(MARCH_15, 11 * 3600 + 7 * 60),
        Some(times.sunrise_minutes)
    );
    assert_eq!(
        to_local_minutes(MARCH_15, 23 * 3600 + 3 * 60),
        Some(times.sunset_minutes)
    );
    assert_ne!(times.sunrise_minutes, times.sunset_minutes);
}

/// Whatever the machine's time zone is, moving an instant by a whole number of
/// minutes within the same offset moves the local time by as many.
#[test]
fn instants_move_with_the_seconds_they_are_given() {
    let early = to_local_minutes(MARCH_15, 12 * 3600).expect("a date there is");
    let late = to_local_minutes(MARCH_15, 12 * 3600 + 300).expect("a date there is");
    assert_eq!((early + 5) % 1440, late);
    // The same instant, written against the day before.
    let day_before = CalendarDate {
        year: 2026,
        ordinal: 73,
    };
    assert_eq!(to_local_minutes(day_before, 36 * 3600), Some(early));
}

#[test]
fn dates_and_instants_the_calendar_cannot_hold_are_refused() {
    let no_such_day = CalendarDate {
        year: 2026,
        ordinal: 366,
    };
    assert_eq!(to_local_minutes(no_such_day, 0), None);
    assert_eq!(
        to_local_minutes(CalendarDate { year: 2026, ordinal: 0 }, 0),
        None
    );
    let first = CalendarDate {
        year: FIRST_YEAR,
        ordinal: 1,
    };
    let last = CalendarDate {
        year: LAST_YEAR,
        ordinal: 365,
    };
    assert!(to_local_minutes(first, 0).is_some());
    assert_eq!(to_local_minutes(first, -1), None);
    assert!(to_local_minutes(last, 86_399).is_some());
    assert_eq!(to_local_minutes(last, 86_400), None);
    assert_eq!(
        to_local_minutes(CalendarDate { year: LAST_YEAR + 1, ordinal: 1 }, 0),
        None
    );
    assert_eq!(to_local_minutes(MARCH_15, i64::MAX), None);
}

#[test]
fn leap_years_have_one_more_day() {
    let days = |year: i32| days_in_year(CalendarDate { year, ordinal: 1 });
    assert_eq!(days(2026), 365);
    assert_eq!(days(2028), 366);
    assert_eq!(days(2000), 366);
    assert_eq!(days(1900), 365);
    assert_eq!(days(-4), 366);
    assert_eq!(days(-1), 365);
}

#[test]
fn a_day_is_remembered_until_the_date_rolls_over() {
    let at = Coordinates {
        latitude: Angle {
            negative: false,
            degrees: 40,
            minutes: 42,
            seconds: 51,
        },
        longitude: Angle {
            negative: true,
            degrees: 74,
            minutes: 0,
            seconds: 23,
        },
    };
    let sun = SunTimes {
        sunrise_minutes: 400,
        sunset_minutes: 1100,
    };
    let mut cached = None;
    assert_eq!(current(&cached, MARCH_15), None);

    let day = remember(&mut cached, MARCH_15, Some(at), Some(sun));
    assert_eq!(today(&day), Some(sun));
    assert!(have_location(&day));
    assert_eq!(current(&cached, MARCH_15), Some(day));
    let next = CalendarDate {
        year: 2026,
        ordinal: 75,
    };
    assert_eq!(current(&cached, next), None);

    let dark = remember(&mut cached, next, Some(at), None);
    assert!(have_location(&dark));
    assert_eq!(today(&dark), None);
    let lost = remember(&mut cached, next, None, None);
    assert!(!have_location(&lost));
    assert_eq!(current(&cached, MARCH_15), None);
}

#[test]
fn the_local_date_is_a_day_of_some_year() {
    let date = local_date();
    assert!(date.year >= 2024);
    assert!(1 <= date.ordinal && date.ordinal <= days_in_year(date));
}

#[test]
fn instants_count_from_the_epoch() {
    let epoch = CalendarDate {
        year: 1970,
        ordinal: 1,
    };
    assert_eq!(instant_of(epoch, 0), Some(0));
    assert_eq!(instant_of(epoch, -1), Some(-1));
    // Midnight UTC on 15 March 2026.
    assert_eq!(instant_of(MARCH_15, 0), Some(1_773_532_800));
    assert_eq!(instant_of(MARCH_15, 3600), Some(1_773_536_400));
    assert_eq!(instant_of(MARCH_15, i64::MAX), None);
    assert_eq!(
        instant_of(CalendarDate { year: 2026, ordinal: 366 }, 0),
        None
    );
}

#[test]
fn both_times_are_needed() {
    assert_eq!(minutes_shown(Some((21, 45))), Some(21 * 60 + 45));
    assert_eq!(minutes_shown(None), None);
    assert_eq!(
        sun_times(Some(400), Some(1100)),
        Some(SunTimes {
            sunrise_minutes: 400,
            sunset_minutes: 1100,
        })
    );
    assert_eq!(sun_times(None, Some(1100)), None);
    assert_eq!(sun_times(Some(400), None), None);
}
