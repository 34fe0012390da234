//! The analog stick: one record of the stick stream.

use vstd::prelude::*;
use vstd::std_specs::cmp::PartialEqSpecImpl;
use crate::input_data::run::Run;

verus! {

#[derive(Clone, Copy, Debug, PartialEq, Eq, Structural)]
pub enum StickInputError {
    /// The record is shorter than two bytes, or one of its axes reads 15.
    InvalidStickInput,
}

#[derive(Clone, Copy, Debug)]
pub struct StickInput {
    x: i8,
    y: i8,
    frame_duration: u32,
}

impl View for StickInput {
    type V = Run<(i8, i8)>;

    closed spec fn view(&self) -> Run<(i8, i8)> {
        Run { state: (self.x, self.y), frames: self.frame_duration as nat }
    }
}

/// Whether the first byte of a stick record holds two axes that exist: each
/// half of the byte is one axis, from 0 to 14.
pub open spec fn stick_axes_valid(first: u8) -> bool {
    first >> 4 <= 14 && first & 0x0F <= 14
}

/// The run that a record of the stick stream stands for. The upper half of
/// the first byte is the horizontal axis and the lower half the vertical one,
/// each moved so that 0 is the middle, -7 left or down and 7 right or up. The
/// second byte is the number of frames.
pub open spec fn stick_run(record: Seq<u8>) -> Run<(i8, i8)> {
    Run {
        state: (((record[0] >> 4) - 7) as i8, ((record[0] & 0x0F) - 7) as i8),
        frames: record[1] as nat,
    }
}

impl StickInput {
    pub fn x(&self) -> (r: i8)
        ensures
            r == self@.state.0,
    {
        self.x
    }

    pub fn y(&self) -> (r: i8)
        ensures
            r == self@.state.1,
    {
        self.y
    }

    pub fn frame_duration(&self) -> (r: u32)
        ensures
            r == self@.frames,
    {
        self.frame_duration
    }

    pub fn set_frame_duration(&mut self, frame_duration: u32)
        ensures
            final(self)@ == (Run { state: old(self)@.state, frames: frame_duration as nat }),
    {
        self.frame_duration = frame_duration;
    }

    /// Reads one record. Bytes after the second are not looked at.
    pub fn try_from(value: &[u8]) -> (r: Result<StickInput, StickInputError>)
        ensures
            r is Ok <==> value@.len() >= 2 && stick_axes_valid(value@[0]),
            r is Ok ==> r->Ok_0@ == stick_run(value@) && -7 <= r->Ok_0@.state.0 <= 7 && -7
                <= r->Ok_0@.state.1 <= 7,
            r is Err ==> r->Err_0 == StickInputError::InvalidStickInput,
    {
        if value.len() < 2 {
            return Err(StickInputError::InvalidStickInput);
        }
        let first = value[0];
        let x = (first & 0xF0) >> 4;
        let y = first & 0x0F;
        assert((first & 0xF0) >> 4 == first >> 4 && first >> 4 <= 15 && first & 0x0F <= 15)
            by (bit_vector);

        if x > 14 || y > 14 {
            return Err(StickInputError::InvalidStickInput);
        }
        // kept from -7 to +7, which reads as left and right, down and up

        let x = x as i8 - 7;
        let y = y as i8 - 7;

        let frame_duration = value[1] as u32;

        Ok(StickInput { x, y, frame_duration })
    }
}

/// Two records are equal where the stick stands in the same place, for
/// however many frames.
impl PartialEq for StickInput {
    fn eq(&self, other: &Self) -> (r: bool) {
        self.x == other.x && self.y == other.y
    }
}

impl PartialEqSpecImpl for StickInput {
    open spec fn obeys_eq_spec() -> bool {
        true
    }

    open spec fn eq_spec(&self, other: &Self) -> bool {
        self@.state == other@.state
    }
}

} // verus!
