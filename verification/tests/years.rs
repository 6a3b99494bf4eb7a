use republican_calendar::get_day_count;
use republican_calendar::get_year_start;
use republican_calendar::get_year_start0;
use republican_calendar::ts_to_year;
use republican_calendar::ts_to_year0;
use republican_calendar::SECONDS_PER_DAY;

const REPUBLICAN_SECONDS_PER_DAY: i64 = SECONDS_PER_DAY;

#[test]
fn years_test_year_start() {
    assert_eq!(0, get_year_start(1));
    assert_eq!(365, get_day_count(1));
    assert_eq!(365, get_day_count(2));
    assert_eq!(366, get_day_count(3)); // sextile
    assert_eq!(365, get_day_count(4));
    assert_eq!(365, get_day_count(5));
    assert_eq!(365, get_day_count(6));
    assert_eq!(366, get_day_count(7)); // sextile
    assert_eq!(365, get_day_count(8));
    assert_eq!(365, get_day_count(9));
    assert_eq!(365, get_day_count(10));
    assert_eq!(366, get_day_count(11)); // sextile

    assert_eq!(365, get_day_count(1208));
    assert_eq!(365, get_day_count(1209));
    assert_eq!(365, get_day_count(1210));
    assert_eq!(366, get_day_count(1211)); // sextile

    assert_eq!(365, get_day_count(-211));
    assert_eq!(365, get_day_count(-212));
    assert_eq!(365, get_day_count(-213));
    assert_eq!(366, get_day_count(-214)); // sextile

    // Verify coherence
    let mut previous_year_start = get_year_start(1);
    for year in 2..=10000 {
        let year_start = get_year_start(year);
        assert_eq!(
            year_start,
            previous_year_start + get_day_count(year - 1) * REPUBLICAN_SECONDS_PER_DAY,
            "year {}",
            year
        );
        previous_year_start = year_start;
    }
    let mut next_year_start = get_year_start(-1);
    for year in (-10000..=-2).rev() {
        let year_start = get_year_start(year);
        assert_eq!(
            year_start,
            next_year_start - get_day_count(year) * REPUBLICAN_SECONDS_PER_DAY,
            "year {}",
            year
        );
        next_year_start = year_start;
    }

    // ts to year
    assert_eq!(1, ts_to_year(get_year_start(1)));
    assert_eq!(-1, ts_to_year(-1));
    assert_eq!(1, ts_to_year(1));
    for year0 in -10000..=10000 {
        assert_eq!(year0, ts_to_year0(get_year_start0(year0)));
    }
}

#[test]
fn years_pattern_test_year_start() {
    let get_day_count = republican_calendar::years_pattern::get_day_count;
    let get_year_start = republican_calendar::years_pattern::get_year_start;

    assert_eq!(0, get_year_start(1));
    assert_eq!(365, get_day_count(1));
    assert_eq!(365, get_day_count(2));
    assert_eq!(366, get_day_count(3)); // sextile
    assert_eq!(365, get_day_count(4));
    assert_eq!(365, get_day_count(5));
    assert_eq!(365, get_day_count(6));
    assert_eq!(366, get_day_count(7)); // sextile
    assert_eq!(365, get_day_count(8));
    assert_eq!(365, get_day_count(9));
    assert_eq!(365, get_day_count(10));
    assert_eq!(366, get_day_count(11)); // sextile

    assert_eq!(365, get_day_count(1208));
    assert_eq!(365, get_day_count(1209));
    assert_eq!(365, get_day_count(1210));
    assert_eq!(366, get_day_count(1211)); // sextile

    assert_eq!(365, get_day_count(-211));
    assert_eq!(365, get_day_count(-212));
    assert_eq!(365, get_day_count(-213));
    assert_eq!(366, get_day_count(-214)); // sextile

    // Verify coherence
    let mut previous_year_start = get_year_start(1);
    for year in 2..=10000 {
        let year_start = get_year_start(year);
        assert_eq!(
            year_start,
            previous_year_start + get_day_count(year - 1) * REPUBLICAN_SECONDS_PER_DAY,
            "year {}",
            year
        );
        previous_year_start = year_start;
    }
    let mut next_year_start = get_year_start(-1);
    for year in (-10000..=-2).rev() {
        let year_start = get_year_start(year);
        assert_eq!(
            year_start,
            next_year_start - get_day_count(year) * REPUBLICAN_SECONDS_PER_DAY,
            "year {}",
            year
        );
        next_year_start = year_start;
    }
}

#[test]
fn both_year_resolvers_agree() {
    for year in -2000..=2000 {
        if year == 0 {
            continue;
        }
        assert_eq!(
            get_year_start(year),
            republican_calendar::years_pattern::get_year_start(year),
            "year {}",
            year
        );
        assert_eq!(
            get_day_count(year),
            republican_calendar::years_pattern::get_day_count(year),
            "year {}",
            year
        );
    }
}

#[test]
fn year_search_far_from_the_table() {
    for year0 in [-99000, -50000, 12345, 98765] {
        assert_eq!(year0, ts_to_year0(get_year_start0(year0)));
        assert_eq!(year0, ts_to_year0(get_year_start0(year0 + 1) - 1));
    }
}

#[test]
fn first_year_starts_at_zero() {
    assert_eq!(0, get_year_start0(0));
    assert_eq!(0, get_year_start(1));
    assert_eq!(1, ts_to_year(0));
    assert_eq!(0, ts_to_year0(0));
}
