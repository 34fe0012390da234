//! The birthday of a Mii: a month and a day, either of which may be left
//! open.

use vstd::prelude::*;
use crate::byte_handler::field_at;
use crate::byte_handler::ByteHandler;
use crate::byte_handler::ByteHandlerError;

verus! {

#[derive(Clone, Copy, Debug, PartialEq, Eq, Structural)]
pub enum BirthdayError {
    MonthInvalid,
    DayInvalid,
    ByteHandlerError(ByteHandlerError),
}

#[derive(Clone, Copy, Debug, PartialEq, Eq)]
pub struct Birthday {
    month: Option<u8>,
    day: Option<u8>,
}

/// The most days that a month can have, or 0 where there is no such month.
pub open spec fn most_days_in_month(month: u8) -> u8 {
    if month == 1 || month == 3 || month == 5 || month == 7 || month == 8 || month == 10 || month
        == 12 {
        31
    } else if month == 4 || month == 6 || month == 9 || month == 11 {
        30
    } else if month == 2 {
        29
    } else {
        0
    }
}

/// The month and the day that the numbers `month` and `day` stand for, or
/// the reason why they stand for none.
///
/// The month 0 leaves both open, whatever the day. The day 0 leaves the day
/// open, whatever the month. Else the month must be one of the twelve and
/// have the day.
pub open spec fn birthday_of(month: u8, day: u8) -> Result<
    (Option<u8>, Option<u8>),
    BirthdayError,
> {
    if month == 0 {
        Ok((None, None))
    } else if day == 0 {
        Ok((Some(month), None))
    } else if month > 12 {
        Err(BirthdayError::MonthInvalid)
    } else if day > most_days_in_month(month) {
        Err(BirthdayError::DayInvalid)
    } else {
        Ok((Some(month), Some(day)))
    }
}

impl Birthday {
    /// The month of the birthday, unless it is left open.
    pub closed spec fn spec_month(&self) -> Option<u8> {
        self.month
    }

    /// The day of the birthday, unless it is left open.
    pub closed spec fn spec_day(&self) -> Option<u8> {
        self.day
    }

    #[verifier::type_invariant]
    spec fn is_birthday(&self) -> bool {
        match (self.month, self.day) {
            (None, None) => true,
            (Some(month), None) => month != 0,
            (Some(month), Some(day)) => birthday_of(month, day) == Ok::<_, BirthdayError>(
                (Some(month), Some(day)),
            ),
            (None, Some(_)) => false,
        }
    }

    pub fn new(month: u8, day: u8) -> (r: Result<Self, BirthdayError>)
        ensures
            match r {
                Ok(birthday) => birthday_of(month, day) == Ok::<_, BirthdayError>(
                    (birthday.spec_month(), birthday.spec_day()),
                ),
                Err(e) => birthday_of(month, day) == Err::<(Option<u8>, Option<u8>), _>(e),
            },
    {
        if month == 0 {
            return Ok(Self { month: None, day: None });
        }
        if day == 0 {
            return Ok(Self { month: Some(month), day: None });
        }
        let most: u8 = match month {
            1 | 3 | 5 | 7 | 8 | 10 | 12 => 31,
            4 | 6 | 9 | 11 => 30,
            2 => 29,
            _ => {
                return Err(BirthdayError::MonthInvalid);
            },
        };
        if day > most {
            return Err(BirthdayError::DayInvalid);
        }
        Ok(Self { month: Some(month), day: Some(day) })
    }

    pub fn month(&self) -> (r: Option<u8>)
        ensures
            r == self.spec_month(),
    {
        self.month
    }

    pub fn day(&self) -> (r: Option<u8>)
        ensures
            r == self.spec_day(),
    {
        self.day
    }

    /// Reads the birthday out of bytes 0x00 and 0x01 of a Mii, where M is a
    /// bit of the month, D one of the day and X one of another field:
    /// 1. XXMMMMDD
    /// 2. DDDXXXXX
    pub fn from_byte_handler(handler: ByteHandler) -> (r: Result<Self, BirthdayError>)
        ensures
            match r {
                Ok(birthday) => birthday_of(
                    field_at(handler@, 10, 4) as u8,
                    field_at(handler@, 5, 5) as u8,
                ) == Ok::<_, BirthdayError>((birthday.spec_month(), birthday.spec_day())),
                Err(e) => birthday_of(
                    field_at(handler@, 10, 4) as u8,
                    field_at(handler@, 5, 5) as u8,
                ) == Err::<(Option<u8>, Option<u8>), _>(e),
            },
    {
        proof {
            vstd::arithmetic::power2::lemma2_to64();
        }
        Self::new(handler.copy_bits(10, 4) as u8, handler.copy_bits(5, 5) as u8)
    }
}

} // verus!
