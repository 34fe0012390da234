//! The directional pad: one record of the directional pad stream.

use vstd::prelude::*;
use vstd::std_specs::cmp::PartialEqSpecImpl;
use crate::input_data::run::Run;

verus! {

#[derive(Clone, Copy, Debug, PartialEq, Eq, Structural)]
pub enum DPadButtonError {
    NonExistentDPadButton,
}

#[derive(Clone, Copy, Debug, PartialEq, Eq, Structural)]
pub enum DPadButton {
    Neutral,
    Up,
    Down,
    Left,
    Right,
}

/// The direction that bits 4 to 6 of the first byte of a record name.
pub open spec fn dpad_button_of(value: u8) -> Result<DPadButton, DPadButtonError> {
    let button = (value & 0x70) >> 4;
    if button == 0 {
        Ok(DPadButton::Neutral)
    } else if button == 1 {
        Ok(DPadButton::Up)
    } else if button == 2 {
        Ok(DPadButton::Down)
    } else if button == 3 {
        Ok(DPadButton::Left)
    } else if button == 4 {
        Ok(DPadButton::Right)
    } else {
        Err(DPadButtonError::NonExistentDPadButton)
    }
}

pub fn parse_dpad_button(value: u8) -> (r: Result<DPadButton, DPadButtonError>)
    ensures
        r == dpad_button_of(value),
{
    let button = (value & 0x70) >> 4;

    match button {
        0 => Ok(DPadButton::Neutral),
        1 => Ok(DPadButton::Up),
        2 => Ok(DPadButton::Down),
        3 => Ok(DPadButton::Left),
        4 => Ok(DPadButton::Right),
        _ => Err(DPadButtonError::NonExistentDPadButton),
    }
}

#[derive(Clone, Copy, Debug, PartialEq, Eq, Structural)]
pub enum DPadInputError {
    /// The record is shorter than two bytes.
    InvalidDpadInput,
    InvalidButton(DPadButtonError),
}

#[derive(Clone, Copy, Debug)]
pub struct DPadInput {
    button: DPadButton,
    frame_duration: u32,
}

impl View for DPadInput {
    type V = Run<DPadButton>;

    closed spec fn view(&self) -> Run<DPadButton> {
        Run { state: self.button, frames: self.frame_duration as nat }
    }
}

/// The number of frames of a record of the directional pad stream: its
/// second byte, and 256 more for each unit of the lower half of its first
/// byte, which counts the full rounds of a state held for longer than 255
/// frames.
pub open spec fn dpad_frames(record: Seq<u8>) -> nat {
    (record[1] + (record[0] & 0x0F) * 256) as nat
}

impl DPadInput {
    pub fn button(&self) -> (r: DPadButton)
        ensures
            r == self@.state,
    {
        self.button
    }

    pub fn frame_duration(&self) -> (r: u32)
        ensures
            r == self@.frames,
    {
        self.frame_duration
    }

    /// Reads one record. Bytes after the second are not looked at.
    pub fn try_from(value: &[u8]) -> (r: Result<DPadInput, DPadInputError>)
        ensures
            value@.len() < 2 ==> r == Err::<DPadInput, _>(DPadInputError::InvalidDpadInput),
            value@.len() >= 2 ==> match dpad_button_of(value@[0]) {
                Ok(button) => r is Ok && r->Ok_0@ == (Run {
                    state: button,
                    frames: dpad_frames(value@),
                }) && r->Ok_0@.frames <= 4095,
                Err(e) => r == Err::<DPadInput, _>(DPadInputError::InvalidButton(e)),
            },
    {
        if value.len() < 2 {
            return Err(DPadInputError::InvalidDpadInput);
        }
        let button = match parse_dpad_button(value[0]) {
            Ok(button) => button,
            Err(e) => {
                return Err(DPadInputError::InvalidButton(e));
            },
        };
        // the lower half of the first byte counts the rounds of 256 frames of
        // a state that was held for longer than 255 frames
        let first = value[0];
        let previous_full_byte_presses: u32 = (first & 0x0F) as u32;
        assert(first & 0x0F <= 15) by (bit_vector);
        let frame_duration = value[1] as u32 + (previous_full_byte_presses * 256);

        Ok(DPadInput { button, frame_duration })
    }
}

/// Two records are equal where they hold the same direction, for however
/// many frames.
impl PartialEq for DPadInput {
    fn eq(&self, other: &DPadInput) -> (r: bool) {
        self.button == other.button
    }
}

impl PartialEqSpecImpl for DPadInput {
    open spec fn obeys_eq_spec() -> bool {
        true
    }

    open spec fn eq_spec(&self, other: &Self) -> bool {
        self@.state == other@.state
    }
}

} // verus!
