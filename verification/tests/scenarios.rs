use republican_calendar::get_day_count;
use republican_calendar::get_year_start;
use republican_calendar::get_year_start0;
use republican_calendar::Date;
use republican_calendar::DateTime;
use republican_calendar::Day;
use republican_calendar::RegularDay;
use republican_calendar::Timestamp;
use republican_calendar::SECONDS_PER_DAY;

#[test]
fn epoch_decomposes_to_the_first_day() {
    let datetime = DateTime::from_timestamp(Timestamp { seconds: 0 });
    assert_eq!(datetime.year(), 1);
    assert_eq!(datetime.num_month0(), 0);
    assert_eq!(datetime.day0(), 0);
    assert_eq!(datetime.decade_day(), Day::Regular(RegularDay::Primedi));
    assert_eq!(datetime.decade_day().name(), "Primidi");
    assert_eq!(datetime.hms(), (0, 0, 0));
}

#[test]
fn last_instant_before_epoch() {
    // One second before the epoch: displayed year -1 (there is no year 0),
    // the terminal period, its last valid day, at the last decimal instant.
    let datetime = DateTime::from_timestamp(Timestamp { seconds: -1 });
    assert_eq!(datetime.year(), -1);
    assert_eq!(datetime.num_month0(), 12);
    assert_eq!(datetime.day0(), get_day_count(-1) - 361);
    assert_eq!(datetime.hour(), 9);
    assert_eq!(datetime.minute(), 99);
    assert_eq!(datetime.second(), 99);
}

#[test]
fn composing_the_first_day_yields_zero() {
    assert_eq!(DateTime::from_ymd(1, 1, 1).timestamp().seconds, 0);
    assert_eq!(Date::from_ymd(1, 1, 1).timestamp().seconds, 0);
    assert_eq!(DateTime::from_ymd_hms(1, 1, 1, 0, 0, 0).timestamp().seconds, 0);
}

#[test]
fn round_trip_over_assorted_instants() {
    let samples: Vec<i64> = vec![
        0,
        -1,
        1,
        12345678,
        -12345678,
        get_year_start(4) - 1,
        get_year_start(-214) + 54321,
        get_year_start0(10000) + 987654,
        get_year_start0(-10000),
        365 * SECONDS_PER_DAY * 5000,
        -365 * SECONDS_PER_DAY * 5000,
    ];
    for ts in samples {
        let datetime = DateTime::from_timestamp(Timestamp { seconds: ts });
        assert_eq!(datetime.timestamp().seconds, ts, "timestamp {}", ts);
    }
}

#[test]
fn round_trip_around_year_boundaries() {
    for year0 in -300..=300 {
        let start = get_year_start0(year0);
        for ts in [start - 1, start, start + 1] {
            let datetime = DateTime::from_timestamp(Timestamp { seconds: ts });
            assert_eq!(datetime.timestamp().seconds, ts, "timestamp {}", ts);
        }
    }
}

#[test]
fn field_round_trip_over_assorted_field_sets() {
    let cases = vec![
        (8, 5, 23, 7, 12, 34),
        (-300, 1, 1, 0, 0, 0),
        (3, 13, 6, 9, 99, 99),
        (1208, 12, 30, 5, 0, 1),
        (-1, 13, 5, 0, 50, 50),
    ];
    for (year, month, day, hour, minute, second) in cases {
        let datetime = DateTime::from_ymd_hms(year, month, day, hour, minute, second);
        let back = DateTime::from_timestamp(datetime.timestamp());
        assert_eq!(back, datetime, "fields {} {} {}", year, month, day);
    }
}

#[test]
fn time_of_day_decomposition() {
    // 5 hours, 50 minutes and 7 seconds into the epoch day.
    let datetime = DateTime::from_timestamp(Timestamp { seconds: 55007 });
    assert_eq!(datetime.hms(), (5, 50, 7));
    assert_eq!(DateTime::from_ymd_hms(1, 1, 1, 5, 50, 7).timestamp().seconds, 55007);
}

#[test]
fn decade_structure() {
    let date = Date::from_ymd0(0, 1, 17);
    assert_eq!(date.decade0(), 1);
    assert_eq!(date.decade(), 2);
    assert_eq!(date.num_decade_day0(), 7);
    assert_eq!(date.num_decade_day(), 8);
    assert_eq!(date.decade_day(), Day::Regular(RegularDay::Octidi));
}

#[test]
fn date_from_timestamp_drops_the_time_of_day() {
    let ts = get_year_start(8) + 7 * SECONDS_PER_DAY + 54321;
    let date = Date::from_timestamp(Timestamp { seconds: ts });
    assert_eq!(date.timestamp().seconds, get_year_start(8) + 7 * SECONDS_PER_DAY);
}

#[test]
fn unix_conversion_at_the_epoch() {
    // Midnight UT on the epoch day lies 1080 Unix seconds before the local
    // day boundary, which is 1250 calendar seconds.
    let ts = Timestamp::from_unix(-5594227200);
    assert_eq!(ts.seconds, 1250);
    assert_eq!(ts.to_unix(), -5594227200);
    assert_eq!(Timestamp::from_unix(-5594227200 - 1080).seconds, 0);
}

#[test]
fn unix_conversion_rescales_days() {
    // One Unix day after the epoch's local midnight is one calendar day.
    let base = -5594227200 - 1080;
    assert_eq!(Timestamp::from_unix(base + 86400).seconds, SECONDS_PER_DAY);
    assert_eq!(Timestamp::from_unix(base + 43200).seconds, SECONDS_PER_DAY / 2);
}

#[test]
fn sextile_years_have_a_sixth_complementary_day() {
    // Year 3 is sextile: its terminal period has six days, and composing
    // its last day lands one second short of year 4 after a full day.
    assert_eq!(get_day_count(3), 366);
    let last_day = DateTime::from_ymd(3, 13, 6);
    assert_eq!(last_day.timestamp().seconds, get_year_start(4) - SECONDS_PER_DAY);
}
