//! The day on which a ghost was set.

use vstd::prelude::*;
use vstd::std_specs::cmp::PartialEqSpecImpl;
use crate::byte_handler::field_at;
use crate::byte_handler::ByteHandler;
use crate::byte_handler::ByteHandlerError;

verus! {

#[derive(Clone, Copy, Debug, PartialEq, Eq, Structural)]
pub enum DateError {
    YearInvalid,
    MonthInvalid,
    DayInvalid,
    ByteHandlerError(ByteHandlerError),
}

/// A day of the years 2000 to 2035, the years that the console knows.
#[derive(Clone, Copy, Debug)]
pub struct Date {
    year: u8,
    month: u8,
    day: u8,
}

/// The number of days of a month of a year of this century, or 0 where
/// there is no such month.
pub open spec fn days_in_month(year: int, month: int) -> int {
    if month == 1 || month == 3 || month == 5 || month == 7 || month == 8 || month == 10 || month
        == 12 {
        31
    } else if month == 4 || month == 6 || month == 9 || month == 11 {
        30
    } else if month == 2 {
        if year % 4 == 0 {
            29
        } else {
            28
        }
    } else {
        0
    }
}

/// Why a year, a month and a day make no date, if they do not. The year is
/// looked at first, then the month, then the day.
pub open spec fn date_fault(year: int, month: int, day: int) -> Option<DateError> {
    if year < 2000 || year > 2035 {
        Some(DateError::YearInvalid)
    } else if month < 1 || month > 12 {
        Some(DateError::MonthInvalid)
    } else if day < 1 || day > days_in_month(year, month) {
        Some(DateError::DayInvalid)
    } else {
        None
    }
}

/// The year that the date field of a header holds: seven bits from bit 13
/// on, counted from the year 2000.
pub open spec fn year_field(word: u32) -> int {
    2000 + field_at(word, 13, 7) as int
}

/// The month that the date field of a header holds: four bits from bit 9 on.
pub open spec fn month_field(word: u32) -> int {
    field_at(word, 9, 4) as int
}

/// The day that the date field of a header holds: five bits from bit 4 on.
pub open spec fn day_field(word: u32) -> int {
    field_at(word, 4, 5) as int
}

impl Date {
    /// The year of the date.
    pub closed spec fn spec_year(&self) -> int {
        self.year + 2000
    }

    /// The month of the date, from 1 to 12.
    pub closed spec fn spec_month(&self) -> int {
        self.month as int
    }

    /// The day of the month, from 1 on.
    pub closed spec fn spec_day(&self) -> int {
        self.day as int
    }

    #[verifier::type_invariant]
    spec fn is_date(&self) -> bool {
        date_fault(self.year + 2000, self.month as int, self.day as int) is None
    }

    pub fn new(year: u16, month: u8, day: u8) -> (r: Result<Self, DateError>)
        ensures
            match r {
                Ok(date) => date_fault(year as int, month as int, day as int) is None
                    && date.spec_year() == year && date.spec_month() == month && date.spec_day()
                    == day,
                Err(e) => date_fault(year as int, month as int, day as int) == Some(e),
            },
    {
        if year < 2000 || year > 2035 {
            return Err(DateError::YearInvalid);
        }
        let year = (year - 2000) as u8;

        let days: u8 = match month {
            1 | 3 | 5 | 7 | 8 | 10 | 12 => 31,
            4 | 6 | 9 | 11 => 30,
            2 => if year % 4 == 0 {
                29
            } else {
                28
            },
            _ => {
                return Err(DateError::MonthInvalid);
            },
        };
        if day < 1 || day > days {
            return Err(DateError::DayInvalid);
        }
        Ok(Self { year, month, day })
    }

    pub fn year(&self) -> (r: u16)
        ensures
            r == self.spec_year(),
            2000 <= r <= 2035,
    {
        proof {
            use_type_invariant(self);
        }
        (self.year as u16) + 2000
    }

    pub fn month(&self) -> (r: u8)
        ensures
            r == self.spec_month(),
            1 <= r <= 12,
    {
        proof {
            use_type_invariant(self);
        }
        self.month
    }

    pub fn day(&self) -> (r: u8)
        ensures
            r == self.spec_day(),
            1 <= r <= days_in_month(self.spec_year(), self.spec_month()),
    {
        proof {
            use_type_invariant(self);
        }
        self.day
    }

    /// Reads the date out of bytes 0x09 to 0x0B of the header, where Y is a
    /// bit of the year, counted from 2000, M one of the month, D one of the
    /// day and X one of another field:
    /// 1. XXXXYYYY
    /// 2. YYYMMMMD
    /// 3. DDDDXXXX
    pub fn from_byte_handler(handler: ByteHandler) -> (r: Result<Self, DateError>)
        ensures
            match r {
                Ok(date) => date_fault(
                    year_field(handler@),
                    month_field(handler@),
                    day_field(handler@),
                ) is None && date.spec_year() == year_field(handler@) && date.spec_month()
                    == month_field(handler@) && date.spec_day() == day_field(handler@),
                Err(e) => date_fault(
                    year_field(handler@),
                    month_field(handler@),
                    day_field(handler@),
                ) == Some(e),
            },
    {
        proof {
            vstd::arithmetic::power2::lemma2_to64();
        }
        let year = (handler.copy_bits(13, 7) as u16) + 2000;
        let month = handler.copy_bits(9, 4) as u8;
        let day = handler.copy_bits(4, 5) as u8;

        Self::new(year, month, day)
    }
}

impl PartialEq for Date {
    fn eq(&self, other: &Self) -> (r: bool) {
        self.day == other.day && self.month == other.month && self.year == other.year
    }
}

impl PartialEqSpecImpl for Date {
    open spec fn obeys_eq_spec() -> bool {
        true
    }

    open spec fn eq_spec(&self, other: &Self) -> bool {
        self.spec_day() == other.spec_day() && self.spec_month() == other.spec_month()
            && self.spec_year() == other.spec_year()
    }
}

} // verus!
