use republican_calendar::Date;
use republican_calendar::Day;
use republican_calendar::Month;
use republican_calendar::RegularDay;
use republican_calendar::SansculottideDay;

#[test]
fn month_numbers_round_trip() {
    for num0 in 0..=12 {
        let month = Month::from_num0(num0);
        assert_eq!(month.num0(), num0);
        assert_eq!(month.num(), num0 + 1);
        assert_eq!(Month::from_num(num0 + 1), month);
    }
}

#[test]
fn month_names() {
    assert_eq!(Month::Vendemiaire.name(), "Vendémiaire");
    assert_eq!(Month::Brumaire.name(), "Brumaire");
    assert_eq!(Month::Frimaire.name(), "Frimaire");
    assert_eq!(Month::Nivose.name(), "Nivôse");
    assert_eq!(Month::Pluviose.name(), "Pluviôse");
    assert_eq!(Month::Ventose.name(), "Ventôse");
    assert_eq!(Month::Germinal.name(), "Germinal");
    assert_eq!(Month::Floreal.name(), "Floréal");
    assert_eq!(Month::Prairial.name(), "Prairial");
    assert_eq!(Month::Messidor.name(), "Messidor");
    assert_eq!(Month::Thermidor.name(), "Thermidor");
    assert_eq!(Month::Fructidor.name(), "Fructidor");
    assert_eq!(Month::Sansculotides.name(), "Sansculotides");
    assert_eq!(Month::Nivose.name_lc(), "nivôse");
    assert_eq!(Month::Sansculotides.name_lc(), "sansculotides");
}

#[test]
fn regular_day_numbers_and_names() {
    assert_eq!(RegularDay::Primedi.name(), "Primidi");
    assert_eq!(RegularDay::Decadi.name(), "Décadi");
    assert_eq!(RegularDay::Decadi.name_lc(), "décadi");
    for num0 in 0..=9 {
        let day = RegularDay::from_num0(num0);
        assert_eq!(day.num0() as i64, num0);
        assert_eq!(day.num() as i64, num0 + 1);
    }
}

#[test]
fn sansculottide_day_numbers_and_names() {
    assert_eq!(SansculottideDay::Vertu.name(), "Jour de la vertu");
    assert_eq!(SansculottideDay::Genie.name_lc(), "jour du génie");
    assert_eq!(SansculottideDay::Revolution.name(), "Jour de la Révolution");
    for num0 in 0..=5 {
        let day = SansculottideDay::from_num0(num0);
        assert_eq!(day.num0() as i64, num0);
        assert_eq!(day.num() as i64, num0 + 1);
    }
}

#[test]
fn day_delegates_to_its_variant() {
    let regular = Day::Regular(RegularDay::Quintidi);
    assert_eq!(regular.name(), "Quintidi");
    assert_eq!(regular.name_lc(), "quintidi");
    assert_eq!(regular.num(), 5);
    assert_eq!(regular.num0(), 4);
    let complementary = Day::Sansculottide(SansculottideDay::Travail);
    assert_eq!(complementary.name(), "Jour du travail");
    assert_eq!(complementary.num(), 3);
}

#[test]
fn default_string_of_a_negative_year() {
    let date = Date::from_ymd(-15, 2, 11);
    assert_eq!(date.to_string_default(), "Primidi 11 Brumaire -15");
}

#[test]
fn traditional_string_roman_figures() {
    assert_eq!(
        Date::from_ymd(14, 1, 1).to_string_traditional(),
        "Primidi 1 Vendémiaire an XIV"
    );
    assert_eq!(
        Date::from_ymd(2024, 3, 25).to_string_traditional(),
        "Quintidi 25 Frimaire an MMXXIV"
    );
    assert_eq!(
        Date::from_ymd(1449, 13, 2).to_string_traditional(),
        "Jour du génie 2 Sansculotides an MCDXLVIV"
    );
}

#[test]
fn default_string_of_a_complementary_day() {
    let date = Date::from_ymd0(2, 12, 5);
    assert_eq!(
        date.to_string_default(),
        "Jour de la Révolution 6 Sansculotides 3"
    );
}
