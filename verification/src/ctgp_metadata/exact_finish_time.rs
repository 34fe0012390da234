//! A time to the picosecond, as CTGP knows it.

use vstd::prelude::*;
use vstd::string::StringExecFns;
use crate::text::push_zero_padded;
use crate::text::zero_padded;

verus! {

/// Minutes, seconds and the rest of the second in picoseconds.
#[derive(Default, Clone, Copy, Debug, PartialEq, Eq, Structural)]
pub struct ExactFinishTime {
    pub minutes: u8,
    pub seconds: u8,
    pub picoseconds: u64,
}

/// An exact time as text: minutes and seconds in two digits, picoseconds in
/// twelve.
pub open spec fn exact_finish_time_text(time: ExactFinishTime) -> Seq<char> {
    zero_padded(time.minutes as nat, 2) + seq![':'] + zero_padded(time.seconds as nat, 2) + seq![
        '.',
    ] + zero_padded(time.picoseconds as nat, 12)
}

impl ExactFinishTime {
    #[inline(always)]
    pub fn new(minutes: u8, seconds: u8, picoseconds: u64) -> (r: Self)
        ensures
            r == (ExactFinishTime { minutes, seconds, picoseconds }),
    {
        Self { minutes, seconds, picoseconds }
    }

    pub fn minutes(self) -> (r: u8)
        ensures
            r == self.minutes,
    {
        self.minutes
    }

    pub fn seconds(self) -> (r: u8)
        ensures
            r == self.seconds,
    {
        self.seconds
    }

    pub fn picoseconds(self) -> (r: u64)
        ensures
            r == self.picoseconds,
    {
        self.picoseconds
    }

    /// The time as text, such as `00:58.647988872949`.
    pub fn to_string(&self) -> (r: String)
        ensures
            r@ == exact_finish_time_text(*self),
    {
        proof {
            reveal_strlit(":");
            reveal_strlit(".");
        }
        let mut text = String::new();
        push_zero_padded(&mut text, self.minutes as u64, 2);
        text.append(":");
        push_zero_padded(&mut text, self.seconds as u64, 2);
        text.append(".");
        push_zero_padded(&mut text, self.picoseconds, 12);
        assert(text@ =~= exact_finish_time_text(*self));
        text
    }
}

} // verus!
