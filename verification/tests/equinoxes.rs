use republican_calendar::get_day_count;
use republican_calendar::get_equinox;
use republican_calendar::get_year_start;
use republican_calendar::SECONDS_PER_DAY;

#[test]
fn equinoxes_test_equinoxes() {
    assert!((0..100_000).contains(&get_equinox(1)));
}

#[test]
fn equinoxes_pattern_test_equinoxes() {
    assert!((0..100_000).contains(&republican_calendar::equinoxes_pattern::get_equinox(1)));
}

#[test]
fn both_equinox_tables_agree() {
    for year in -209..=1208 {
        if year == 0 {
            continue;
        }
        assert_eq!(
            get_equinox(year),
            republican_calendar::equinoxes_pattern::get_equinox(year),
            "year {}",
            year
        );
    }
}

#[test]
fn equinox_lies_inside_its_year() {
    for year in [-209, -1, 1, 3, 100, 1208] {
        let eq = get_equinox(year);
        let start = get_year_start(year);
        assert!(start <= eq, "year {}", year);
        assert!(eq < start + get_day_count(year) * SECONDS_PER_DAY, "year {}", year);
        // The year starts on the day holding its equinox.
        assert!(eq - start < SECONDS_PER_DAY, "year {}", year);
    }
}
