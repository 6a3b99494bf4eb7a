use republican_calendar::get_year_start;
use republican_calendar::DateTime;
use republican_calendar::Month;
use republican_calendar::Timestamp;
use republican_calendar::SECONDS_PER_DAY;

const SECONDS_PER_YEAR: i64 = 365 * SECONDS_PER_DAY;

#[test]
fn test_franciade() {
    let datetime = DateTime::from_timestamp(Timestamp { seconds: 0 });
    assert_eq!(datetime.franciade0(), 0);
    assert_eq!(datetime.franciade(), 1);

    let datetime = DateTime::from_timestamp(Timestamp { seconds: -400 * SECONDS_PER_DAY });
    assert_eq!(datetime.franciade0(), -1);
    assert_eq!(datetime.franciade(), -1);

    let datetime = DateTime::from_timestamp(Timestamp { seconds: SECONDS_PER_YEAR * 5 });
    assert_eq!(datetime.franciade0(), 1);
    assert_eq!(datetime.franciade(), 2);
}

#[test]
fn test_year() {
    let datetime = DateTime::from_timestamp(Timestamp { seconds: 0 });
    assert_eq!(datetime.year0(), 0);
    assert_eq!(datetime.year(), 1);

    let datetime = DateTime::from_timestamp(Timestamp { seconds: -1 });
    assert_eq!(datetime.year0(), -1);
    assert_eq!(datetime.year(), -1);

    let datetime = DateTime::from_timestamp(
        Timestamp { seconds: -SECONDS_PER_YEAR - SECONDS_PER_DAY - 1 },
    );
    assert_eq!(datetime.year0(), -2);
    assert_eq!(datetime.year(), -2);
}

#[test]
fn test_month() {
    let datetime = DateTime::from_timestamp(Timestamp { seconds: 0 });
    assert_eq!(datetime.num_month0(), 0);
    assert_eq!(datetime.month(), Month::Vendemiaire);

    let datetime = DateTime::from_timestamp(Timestamp { seconds: -1 });
    assert_eq!(datetime.num_month0(), 12);
    assert_eq!(datetime.month(), Month::Sansculotides);
}

#[test]
fn test_day() {
    let datetime = DateTime::from_timestamp(Timestamp { seconds: 0 });
    assert_eq!(datetime.day0(), 0);
    assert_eq!(datetime.day(), 1);

    let datetime = DateTime::from_timestamp(Timestamp { seconds: get_year_start(4) - 1 });
    assert_eq!(datetime.day0(), 5); // Jour de la révolution
    assert_eq!(datetime.decade_day().name(), "Jour de la Révolution");
    assert_eq!(datetime.day(), 6);
}

#[test]
fn test_fmt() {
    let datetime = DateTime::from_timestamp(Timestamp { seconds: 0 });
    assert_eq!(datetime.to_string_default(), "Primidi 1 Vendémiaire 1");
    assert_eq!(datetime.to_string_traditional(), "Primidi 1 Vendémiaire an I");
}
