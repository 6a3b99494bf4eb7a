//! The thirteen months of the calendar year: twelve regular thirty-day
//! months, and the short terminal period of complementary days counted as a
//! thirteenth month.

use vstd::prelude::*;

verus! {

/// A month of the calendar year.  The twelve regular months run in order
/// from the autumn equinox; `Sansculotides` is the short terminal period of
/// five or six complementary days that closes the year.
#[derive(Debug, Clone, Copy, Hash, PartialEq, Eq, PartialOrd, Ord)]
pub enum Month {
    Vendemiaire,
    Brumaire,
    Frimaire,
    Nivose,
    Pluviose,
    Ventose,
    Germinal,
    Floreal,
    Prairial,
    Messidor,
    Thermidor,
    Fructidor,
    Sansculotides,
}

impl Month {
    /// Zero-based number of this month, 0 through 12.
    pub open spec fn spec_num0(self) -> int {
        match self {
            Month::Vendemiaire => 0,
            Month::Brumaire => 1,
            Month::Frimaire => 2,
            Month::Nivose => 3,
            Month::Pluviose => 4,
            Month::Ventose => 5,
            Month::Germinal => 6,
            Month::Floreal => 7,
            Month::Prairial => 8,
            Month::Messidor => 9,
            Month::Thermidor => 10,
            Month::Fructidor => 11,
            Month::Sansculotides => 12,
        }
    }

    /// The month with the given zero-based number, 0 through 12.
    pub open spec fn spec_from_num0(num0: int) -> Month {
        if num0 == 0 {
            Month::Vendemiaire
        } else if num0 == 1 {
            Month::Brumaire
        } else if num0 == 2 {
            Month::Frimaire
        } else if num0 == 3 {
            Month::Nivose
        } else if num0 == 4 {
            Month::Pluviose
        } else if num0 == 5 {
            Month::Ventose
        } else if num0 == 6 {
            Month::Germinal
        } else if num0 == 7 {
            Month::Floreal
        } else if num0 == 8 {
            Month::Prairial
        } else if num0 == 9 {
            Month::Messidor
        } else if num0 == 10 {
            Month::Thermidor
        } else if num0 == 11 {
            Month::Fructidor
        } else {
            Month::Sansculotides
        }
    }

    /// This month's name, capitalised.
    pub open spec fn spec_name(self) -> Seq<char> {
        match self {
            Month::Vendemiaire => "Vendémiaire"@,
            Month::Brumaire => "Brumaire"@,
            Month::Frimaire => "Frimaire"@,
            Month::Nivose => "Nivôse"@,
            Month::Pluviose => "Pluviôse"@,
            Month::Ventose => "Ventôse"@,
            Month::Germinal => "Germinal"@,
            Month::Floreal => "Floréal"@,
            Month::Prairial => "Prairial"@,
            Month::Messidor => "Messidor"@,
            Month::Thermidor => "Thermidor"@,
            Month::Fructidor => "Fructidor"@,
            Month::Sansculotides => "Sansculotides"@,
        }
    }

    /// This month's name, in lower case.
    pub open spec fn spec_name_lc(self) -> Seq<char> {
        match self {
            Month::Vendemiaire => "vendémiaire"@,
            Month::Brumaire => "brumaire"@,
            Month::Frimaire => "frimaire"@,
            Month::Nivose => "nivôse"@,
            Month::Pluviose => "pluviôse"@,
            Month::Ventose => "ventôse"@,
            Month::Germinal => "germinal"@,
            Month::Floreal => "floréal"@,
            Month::Prairial => "prairial"@,
            Month::Messidor => "messidor"@,
            Month::Thermidor => "thermidor"@,
            Month::Fructidor => "fructidor"@,
            Month::Sansculotides => "sansculotides"@,
        }
    }

    /// Returns the month's name, capitalised.
    pub fn name(&self) -> (r: &'static str)
        ensures
            r@ == self.spec_name(),
    {
        match self {
            Month::Vendemiaire => "Vendémiaire",
            Month::Brumaire => "Brumaire",
            Month::Frimaire => "Frimaire",
            Month::Nivose => "Nivôse",
            Month::Pluviose => "Pluviôse",
            Month::Ventose => "Ventôse",
            Month::Germinal => "Germinal",
            Month::Floreal => "Floréal",
            Month::Prairial => "Prairial",
            Month::Messidor => "Messidor",
            Month::Thermidor => "Thermidor",
            Month::Fructidor => "Fructidor",
            Month::Sansculotides => "Sansculotides",
        }
    }

    /// Returns the month's name, in lower case.
    pub fn name_lc(&self) -> (r: &'static str)
        ensures
            r@ == self.spec_name_lc(),
    {
        match self {
            Month::Vendemiaire => "vendémiaire",
            Month::Brumaire => "brumaire",
            Month::Frimaire => "frimaire",
            Month::Nivose => "nivôse",
            Month::Pluviose => "pluviôse",
            Month::Ventose => "ventôse",
            Month::Germinal => "germinal",
            Month::Floreal => "floréal",
            Month::Prairial => "prairial",
            Month::Messidor => "messidor",
            Month::Thermidor => "thermidor",
            Month::Fructidor => "fructidor",
            Month::Sansculotides => "sansculotides",
        }
    }

    /// Returns the month's number, starting from 0.
    pub fn num0(&self) -> (r: i64)
        ensures
            r == self.spec_num0(),
    {
        match self {
            Month::Vendemiaire => 0,
            Month::Brumaire => 1,
            Month::Frimaire => 2,
            Month::Nivose => 3,
            Month::Pluviose => 4,
            Month::Ventose => 5,
            Month::Germinal => 6,
            Month::Floreal => 7,
            Month::Prairial => 8,
            Month::Messidor => 9,
            Month::Thermidor => 10,
            Month::Fructidor => 11,
            Month::Sansculotides => 12,
        }
    }

    /// Returns the month's number, starting from 1.
    pub fn num(&self) -> (r: i64)
        ensures
            r == self.spec_num0() + 1,
    {
        self.num0() + 1
    }

    /// The month with the given zero-based number.
    pub fn from_num0(num0: i64) -> (r: Self)
        requires
            0 <= num0 <= 12,
        ensures
            r == Month::spec_from_num0(num0 as int),
            r.spec_num0() == num0,
    {
        if num0 == 0 {
            Month::Vendemiaire
        } else if num0 == 1 {
            Month::Brumaire
        } else if num0 == 2 {
            Month::Frimaire
        } else if num0 == 3 {
            Month::Nivose
        } else if num0 == 4 {
            Month::Pluviose
        } else if num0 == 5 {
            Month::Ventose
        } else if num0 == 6 {
            Month::Germinal
        } else if num0 == 7 {
            Month::Floreal
        } else if num0 == 8 {
            Month::Prairial
        } else if num0 == 9 {
            Month::Messidor
        } else if num0 == 10 {
            Month::Thermidor
        } else if num0 == 11 {
            Month::Fructidor
        } else {
            Month::Sansculotides
        }
    }

    /// The month with the given one-based number.
    pub fn from_num(num: i64) -> (r: Self)
        requires
            1 <= num <= 13,
        ensures
            r == Month::spec_from_num0(num - 1),
            r.spec_num0() == num - 1,
    {
        Month::from_num0(num - 1)
    }
}

} // verus!
