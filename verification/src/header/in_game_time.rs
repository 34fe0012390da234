//! A time as the game shows it: minutes, seconds and milliseconds.

use vstd::prelude::*;
use vstd::arithmetic::power2::lemma2_to64;
use crate::byte_handler::ByteHandler;
use crate::byte_handler::ByteHandlerError;
use crate::byte_handler::field_at;
use crate::text::push_zero_padded;
use crate::text::zero_padded;
use vstd::string::StringExecFns;

verus! {

#[derive(Clone, Copy, Debug, PartialEq, Eq, Structural)]
pub enum InGameTimeError {
    InsufficientlyLongIterator,
    ByteHandlerError(ByteHandlerError),
}

#[derive(Default, Clone, Copy, Debug, PartialEq, Eq, Structural)]
pub struct InGameTime {
    pub minutes: u8,
    pub seconds: u8,
    pub milliseconds: u16,
}

/// The time that the lowest 24 bits of `word` hold: seven bits of minutes,
/// seven bits of seconds and ten bits of milliseconds.
pub open spec fn in_game_time_of(word: u32) -> InGameTime {
    InGameTime {
        minutes: field_at(word, 17, 7) as u8,
        seconds: field_at(word, 10, 7) as u8,
        milliseconds: field_at(word, 0, 10) as u16,
    }
}

/// A time as text: minutes and seconds in two digits, milliseconds in three.
pub open spec fn in_game_time_text(time: InGameTime) -> Seq<char> {
    zero_padded(time.minutes as nat, 2) + seq![':'] + zero_padded(time.seconds as nat, 2) + seq![
        '.',
    ] + zero_padded(time.milliseconds as nat, 3)
}

impl InGameTime {
    #[inline(always)]
    pub fn new(minutes: u8, seconds: u8, milliseconds: u16) -> (r: Self)
        ensures
            r == (InGameTime { minutes, seconds, milliseconds }),
    {
        Self { minutes, seconds, milliseconds }
    }

    pub fn minutes(self) -> (r: u8)
        ensures
            r == self.minutes,
    {
        self.minutes
    }

    pub fn seconds(self) -> (r: u8)
        ensures
            r == self.seconds,
    {
        self.seconds
    }

    pub fn milliseconds(self) -> (r: u16)
        ensures
            r == self.milliseconds,
    {
        self.milliseconds
    }

    /// Whether the time is one that the game cannot show: more than five
    /// minutes, or seconds or milliseconds that run over.
    pub fn is_technically_valid(self) -> (r: bool)
        ensures
            r == (self.minutes > 5 || self.seconds > 59 || self.milliseconds > 999),
    {
        self.minutes > 5 || self.seconds > 59 || self.milliseconds > 999
    }

    pub fn igt_to_millis(self) -> (r: i32)
        ensures
            r == self.milliseconds + self.seconds * 1000 + self.minutes * 60000,
    {
        (self.milliseconds as i32) + (self.seconds as i32) * 1000 + (self.minutes as i32) * 60000
    }

    /// The time as text, such as `01:03.904`.
    pub fn to_string(&self) -> (r: String)
        ensures
            r@ == in_game_time_text(*self),
    {
        proof {
            reveal_strlit(":");
            reveal_strlit(".");
        }
        let mut text = String::new();
        push_zero_padded(&mut text, self.minutes as u64, 2);
        text.append(":");
        push_zero_padded(&mut text, self.seconds as u64, 2);
        text.append(".");
        push_zero_padded(&mut text, self.milliseconds as u64, 3);
        assert(text@ =~= in_game_time_text(*self));
        text
    }

    /// Reads a time out of three bytes, where M is a bit of the minutes, S
    /// one of the seconds and C one of the milliseconds:
    /// 1. 0bMMMMMMMS
    /// 2. 0bSSSSSSCC
    /// 3. 0bCCCCCCCC
    pub fn from_byte_handler(handler: ByteHandler) -> (r: Result<Self, InGameTimeError>)
        ensures
            r == Ok::<_, InGameTimeError>(in_game_time_of(handler@)),
    {
        proof {
            lemma2_to64();
        }
        let minutes = handler.copy_bits(17, 7) as u8;
        let seconds = handler.copy_bits(10, 7) as u8;
        let milliseconds = handler.copy_bits(0, 10) as u16;

        Ok(Self { minutes, seconds, milliseconds })
    }
}

} // verus!
