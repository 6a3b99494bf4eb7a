//! The named days of the ten-day decade, and the complementary days of the
//! terminal period.

use vstd::prelude::*;

verus! {

/// A named day: one of the ten decade days of a regular month, or one of
/// the six complementary days of the terminal period.
#[derive(Debug, Clone, Copy, Hash, PartialEq, Eq, PartialOrd, Ord)]
pub enum Day {
    Regular(RegularDay),
    Sansculottide(SansculottideDay),
}

/// A day of the ten-day decade of a regular month.
#[derive(Debug, Clone, Copy, Hash, PartialEq, Eq, PartialOrd, Ord)]
pub enum RegularDay {
    Primedi,
    Duodi,
    Tridi,
    Quartidi,
    Quintidi,
    Sextidi,
    Septidi,
    Octidi,
    Nonidi,
    Decadi,
}

/// A complementary day of the terminal period; the sixth exists only in
/// 366-day years.
#[derive(Debug, Clone, Copy, Hash, PartialEq, Eq, PartialOrd, Ord)]
pub enum SansculottideDay {
    Vertu,
    Genie,
    Travail,
    Opinion,
    Recompenses,
    Revolution,
}

impl RegularDay {
    /// Zero-based position of this day in its decade, 0 through 9.
    pub open spec fn spec_num0(self) -> int {
        match self {
            RegularDay::Primedi => 0,
            RegularDay::Duodi => 1,
            RegularDay::Tridi => 2,
            RegularDay::Quartidi => 3,
            RegularDay::Quintidi => 4,
            RegularDay::Sextidi => 5,
            RegularDay::Septidi => 6,
            RegularDay::Octidi => 7,
            RegularDay::Nonidi => 8,
            RegularDay::Decadi => 9,
        }
    }

    /// The decade day at the given zero-based position, 0 through 9.
    pub open spec fn spec_from_num0(num0: int) -> RegularDay {
        if num0 == 0 {
            RegularDay::Primedi
        } else if num0 == 1 {
            RegularDay::Duodi
        } else if num0 == 2 {
            RegularDay::Tridi
        } else if num0 == 3 {
            RegularDay::Quartidi
        } else if num0 == 4 {
            RegularDay::Quintidi
        } else if num0 == 5 {
            RegularDay::Sextidi
        } else if num0 == 6 {
            RegularDay::Septidi
        } else if num0 == 7 {
            RegularDay::Octidi
        } else if num0 == 8 {
            RegularDay::Nonidi
        } else {
            RegularDay::Decadi
        }
    }

    /// This day's name, capitalised.
    pub open spec fn spec_name(self) -> Seq<char> {
        match self {
            RegularDay::Primedi => "Primidi"@,
            RegularDay::Duodi => "Duodi"@,
            RegularDay::Tridi => "Tridi"@,
            RegularDay::Quartidi => "Quartidi"@,
            RegularDay::Quintidi => "Quintidi"@,
            RegularDay::Sextidi => "Sextidi"@,
            RegularDay::Septidi => "Septidi"@,
            RegularDay::Octidi => "Octidi"@,
            RegularDay::Nonidi => "Nonidi"@,
            RegularDay::Decadi => "Décadi"@,
        }
    }

    /// This day's name, in lower case.
    pub open spec fn spec_name_lc(self) -> Seq<char> {
        match self {
            RegularDay::Primedi => "primidi"@,
            RegularDay::Duodi => "duodi"@,
            RegularDay::Tridi => "tridi"@,
            RegularDay::Quartidi => "quartidi"@,
            RegularDay::Quintidi => "quintidi"@,
            RegularDay::Sextidi => "sextidi"@,
            RegularDay::Septidi => "septidi"@,
            RegularDay::Octidi => "octidi"@,
            RegularDay::Nonidi => "nonidi"@,
            RegularDay::Decadi => "décadi"@,
        }
    }

    /// Returns the day's name, capitalised.
    pub fn name(&self) -> (r: &'static str)
        ensures
            r@ == self.spec_name(),
    {
        match self {
            RegularDay::Primedi => "Primidi",
            RegularDay::Duodi => "Duodi",
            RegularDay::Tridi => "Tridi",
            RegularDay::Quartidi => "Quartidi",
            RegularDay::Quintidi => "Quintidi",
            RegularDay::Sextidi => "Sextidi",
            RegularDay::Septidi => "Septidi",
            RegularDay::Octidi => "Octidi",
            RegularDay::Nonidi => "Nonidi",
            RegularDay::Decadi => "Décadi",
        }
    }

    /// Returns the day's name, in lower case.
    pub fn name_lc(&self) -> (r: &'static str)
        ensures
            r@ == self.spec_name_lc(),
    {
        match self {
            RegularDay::Primedi => "primidi",
            RegularDay::Duodi => "duodi",
            RegularDay::Tridi => "tridi",
            RegularDay::Quartidi => "quartidi",
            RegularDay::Quintidi => "quintidi",
            RegularDay::Sextidi => "sextidi",
            RegularDay::Septidi => "septidi",
            RegularDay::Octidi => "octidi",
            RegularDay::Nonidi => "nonidi",
            RegularDay::Decadi => "décadi",
        }
    }

    /// Returns the day's position in its decade, from 1 to 10.
    pub fn num(&self) -> (r: u8)
        ensures
            r == self.spec_num0() + 1,
    {
        match self {
            RegularDay::Primedi => 1,
            RegularDay::Duodi => 2,
            RegularDay::Tridi => 3,
            RegularDay::Quartidi => 4,
            RegularDay::Quintidi => 5,
            RegularDay::Sextidi => 6,
            RegularDay::Septidi => 7,
            RegularDay::Octidi => 8,
            RegularDay::Nonidi => 9,
            RegularDay::Decadi => 10,
        }
    }

    /// Returns the day's position in its decade, from 0 to 9.
    pub fn num0(&self) -> (r: u8)
        ensures
            r == self.spec_num0(),
    {
        self.num() - 1
    }

    /// The decade day at the given zero-based position.
    pub fn from_num0(num0: i64) -> (r: Self)
        requires
            0 <= num0 <= 9,
        ensures
            r == RegularDay::spec_from_num0(num0 as int),
            r.spec_num0() == num0,
    {
        if num0 == 0 {
            RegularDay::Primedi
        } else if num0 == 1 {
            RegularDay::Duodi
        } else if num0 == 2 {
            RegularDay::Tridi
        } else if num0 == 3 {
            RegularDay::Quartidi
        } else if num0 == 4 {
            RegularDay::Quintidi
        } else if num0 == 5 {
            RegularDay::Sextidi
        } else if num0 == 6 {
            RegularDay::Septidi
        } else if num0 == 7 {
            RegularDay::Octidi
        } else if num0 == 8 {
            RegularDay::Nonidi
        } else {
            RegularDay::Decadi
        }
    }
}

impl SansculottideDay {
    /// Zero-based position of this day in the terminal period, 0 through 5.
    pub open spec fn spec_num0(self) -> int {
        match self {
            SansculottideDay::Vertu => 0,
            SansculottideDay::Genie => 1,
            SansculottideDay::Travail => 2,
            SansculottideDay::Opinion => 3,
            SansculottideDay::Recompenses => 4,
            SansculottideDay::Revolution => 5,
        }
    }

    /// The complementary day at the given zero-based position, 0 through 5.
    pub open spec fn spec_from_num0(num0: int) -> SansculottideDay {
        if num0 == 0 {
            SansculottideDay::Vertu
        } else if num0 == 1 {
            SansculottideDay::Genie
        } else if num0 == 2 {
            SansculottideDay::Travail
        } else if num0 == 3 {
            SansculottideDay::Opinion
        } else if num0 == 4 {
            SansculottideDay::Recompenses
        } else {
            SansculottideDay::Revolution
        }
    }

    /// This day's name, capitalised.
    pub open spec fn spec_name(self) -> Seq<char> {
        match self {
            SansculottideDay::Vertu => "Jour de la vertu"@,
            SansculottideDay::Genie => "Jour du génie"@,
            SansculottideDay::Travail => "Jour du travail"@,
            SansculottideDay::Opinion => "Jour de l'opinion"@,
            SansculottideDay::Recompenses => "Jour des récompenses"@,
            SansculottideDay::Revolution => "Jour de la Révolution"@,
        }
    }

    /// This day's name, in lower case.
    pub open spec fn spec_name_lc(self) -> Seq<char> {
        match self {
            SansculottideDay::Vertu => "jour de la vertu"@,
            SansculottideDay::Genie => "jour du génie"@,
            SansculottideDay::Travail => "jour du travail"@,
            SansculottideDay::Opinion => "jour de l'opinion"@,
            SansculottideDay::Recompenses => "jour des récompenses"@,
            SansculottideDay::Revolution => "jour de la Révolution"@,
        }
    }

    /// Returns the day's name, capitalised.
    pub fn name(&self) -> (r: &'static str)
        ensures
            r@ == self.spec_name(),
    {
        match self {
            SansculottideDay::Vertu => "Jour de la vertu",
            SansculottideDay::Genie => "Jour du génie",
            SansculottideDay::Travail => "Jour du travail",
            SansculottideDay::Opinion => "Jour de l'opinion",
            SansculottideDay::Recompenses => "Jour des récompenses",
            SansculottideDay::Revolution => "Jour de la Révolution",
        }
    }

    /// Returns the day's name, in lower case.
    pub fn name_lc(&self) -> (r: &'static str)
        ensures
            r@ == self.spec_name_lc(),
    {
        match self {
            SansculottideDay::Vertu => "jour de la vertu",
            SansculottideDay::Genie => "jour du génie",
            SansculottideDay::Travail => "jour du travail",
            SansculottideDay::Opinion => "jour de l'opinion",
            SansculottideDay::Recompenses => "jour des récompenses",
            SansculottideDay::Revolution => "jour de la Révolution",
        }
    }

    /// Returns the day's position in the terminal period, from 1 to 6.
    pub fn num(&self) -> (r: u8)
        ensures
            r == self.spec_num0() + 1,
    {
        match self {
            SansculottideDay::Vertu => 1,
            SansculottideDay::Genie => 2,
            SansculottideDay::Travail => 3,
            SansculottideDay::Opinion => 4,
            SansculottideDay::Recompenses => 5,
            SansculottideDay::Revolution => 6,
        }
    }

    /// Returns the day's position in the terminal period, from 0 to 5.
    pub fn num0(&self) -> (r: u8)
        ensures
            r == self.spec_num0(),
    {
        self.num() - 1
    }

    /// The complementary day at the given zero-based position.
    pub fn from_num0(num0: i64) -> (r: Self)
        requires
            0 <= num0 <= 5,
        ensures
            r == SansculottideDay::spec_from_num0(num0 as int),
            r.spec_num0() == num0,
    {
        if num0 == 0 {
            SansculottideDay::Vertu
        } else if num0 == 1 {
            SansculottideDay::Genie
        } else if num0 == 2 {
            SansculottideDay::Travail
        } else if num0 == 3 {
            SansculottideDay::Opinion
        } else if num0 == 4 {
            SansculottideDay::Recompenses
        } else {
            SansculottideDay::Revolution
        }
    }
}

impl Day {
    /// Zero-based position of this day in its decade or terminal period.
    pub open spec fn spec_num0(self) -> int {
        match self {
            Day::Regular(day) => day.spec_num0(),
            Day::Sansculottide(day) => day.spec_num0(),
        }
    }

    /// This day's name, capitalised.
    pub open spec fn spec_name(self) -> Seq<char> {
        match self {
            Day::Regular(day) => day.spec_name(),
            Day::Sansculottide(day) => day.spec_name(),
        }
    }

    /// This day's name, in lower case.
    pub open spec fn spec_name_lc(self) -> Seq<char> {
        match self {
            Day::Regular(day) => day.spec_name_lc(),
            Day::Sansculottide(day) => day.spec_name_lc(),
        }
    }

    /// Returns the day's name, capitalised.
    pub fn name(&self) -> (r: &'static str)
        ensures
            r@ == self.spec_name(),
    {
        match self {
            Day::Regular(day) => day.name(),
            Day::Sansculottide(day) => day.name(),
        }
    }

    /// Returns the day's name, in lower case.
    pub fn name_lc(&self) -> (r: &'static str)
        ensures
            r@ == self.spec_name_lc(),
    {
        match self {
            Day::Regular(day) => day.name_lc(),
            Day::Sansculottide(day) => day.name_lc(),
        }
    }

    /// Returns the day's position in its decade or terminal period,
    /// starting from 1.
    pub fn num(&self) -> (r: u8)
        ensures
            r == self.spec_num0() + 1,
    {
        match self {
            Day::Regular(day) => day.num(),
            Day::Sansculottide(day) => day.num(),
        }
    }

    /// Returns the day's position in its decade or terminal period,
    /// starting from 0.
    pub fn num0(&self) -> (r: u8)
        ensures
            r == self.spec_num0(),
    {
        match self {
            Day::Regular(day) => day.num0(),
            Day::Sansculottide(day) => day.num0(),
        }
    }
}

} // verus!
