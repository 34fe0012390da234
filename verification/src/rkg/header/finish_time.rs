//! A time of the header, with the text that shows it.

use vstd::prelude::*;
use bitreader::BitReader;
use crate::bit_reader::bits_value;
use crate::bit_reader::reader_bytes;
use crate::bit_reader::reader_limit;
use crate::bit_reader::reader_position;
use crate::header::in_game_time::in_game_time_text;
use crate::header::in_game_time::InGameTime;

verus! {

pub struct FinishTime {
    minutes: u8,
    seconds: u8,
    milliseconds: u16,
    string: String,
}

impl View for FinishTime {
    type V = InGameTime;

    closed spec fn view(&self) -> InGameTime {
        InGameTime {
            minutes: self.minutes,
            seconds: self.seconds,
            milliseconds: self.milliseconds,
        }
    }
}

/// The time in the 24 bits of `bytes` from bit `from` on: seven bits of
/// minutes, seven bits of seconds and ten bits of milliseconds.
pub open spec fn time_at(bytes: Seq<u8>, from: nat) -> InGameTime {
    InGameTime {
        minutes: bits_value(bytes, from, 7) as u8,
        seconds: bits_value(bytes, from + 7, 7) as u8,
        milliseconds: bits_value(bytes, from + 14, 10) as u16,
    }
}

impl FinishTime {
    #[verifier::type_invariant]
    spec fn shows_itself(&self) -> bool {
        self.string@ == in_game_time_text(self@)
    }

    pub fn minutes(&self) -> (r: u8)
        ensures
            r == self@.minutes,
    {
        self.minutes
    }

    pub fn seconds(&self) -> (r: u8)
        ensures
            r == self@.seconds,
    {
        self.seconds
    }

    pub fn milliseconds(&self) -> (r: u16)
        ensures
            r == self@.milliseconds,
    {
        self.milliseconds
    }

    /// The time as text, such as `01:03.904`.
    pub fn string(&self) -> (r: &str)
        ensures
            r@ == in_game_time_text(self@),
    {
        proof {
            use_type_invariant(self);
        }
        self.string.as_str()
    }

    /// Reads a time out of the next 24 bits of a reader, which must have
    /// them.
    pub fn from_reader(rkg_reader: &mut BitReader<'_>) -> (r: Self)
        requires
            reader_position(*old(rkg_reader)) + 24 <= reader_limit(*old(rkg_reader)),
        ensures
            r@ == time_at(reader_bytes(*old(rkg_reader)), reader_position(*old(rkg_reader))),
            reader_bytes(*final(rkg_reader)) == reader_bytes(*old(rkg_reader)),
            reader_limit(*final(rkg_reader)) == reader_limit(*old(rkg_reader)),
            reader_position(*final(rkg_reader)) == reader_position(*old(rkg_reader)) + 24,
    {
        let minutes: u8 = match rkg_reader.read_u8(7) {
            Ok(minutes) => minutes,
            Err(_) => {
                // not reached: the bits are there
                assert(false);
                0
            },
        };
        let seconds: u8 = match rkg_reader.read_u8(7) {
            Ok(seconds) => seconds,
            Err(_) => {
                assert(false);
                0
            },
        };
        let milliseconds: u16 = match rkg_reader.read_u16(10) {
            Ok(milliseconds) => milliseconds,
            Err(_) => {
                assert(false);
                0
            },
        };
        Self::new(minutes, seconds, milliseconds)
    }

    pub fn new(minutes: u8, seconds: u8, milliseconds: u16) -> (r: Self)
        ensures
            r@ == (InGameTime { minutes, seconds, milliseconds }),
    {
        let string = InGameTime::new(minutes, seconds, milliseconds).to_string();
        Self { minutes, seconds, milliseconds, string }
    }
}

} // verus!
