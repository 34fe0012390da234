//! One entry of the timeline: what the whole controller does for a number of
//! frames.

use vstd::prelude::*;
use vstd::std_specs::cmp::PartialEqSpecImpl;
use crate::input_data::dpad_input::DPadButton;
use crate::input_data::face_input::FaceButton;
use crate::input_data::face_input::copy_buttons;
use crate::input_data::face_input::same_buttons;
use crate::input_data::run::Run;

verus! {

/// What the whole controller does at one time.
pub struct InputState {
    pub face_buttons: Seq<FaceButton>,
    pub stick_x: i8,
    pub stick_y: i8,
    pub dpad_button: DPadButton,
}

#[derive(Debug)]
pub struct Input {
    face_buttons: Vec<FaceButton>,
    stick_x: i8,
    stick_y: i8,
    dpad_button: DPadButton,
    frame_duration: u32,
}

impl View for Input {
    type V = Run<InputState>;

    closed spec fn view(&self) -> Run<InputState> {
        Run {
            state: InputState {
                face_buttons: self.face_buttons@,
                stick_x: self.stick_x,
                stick_y: self.stick_y,
                dpad_button: self.dpad_button,
            },
            frames: self.frame_duration as nat,
        }
    }
}

impl Input {
    pub fn new(
        face_buttons: Vec<FaceButton>,
        stick_x: i8,
        stick_y: i8,
        dpad_button: DPadButton,
        frame_duration: u32,
    ) -> (r: Self)
        ensures
            r@ == (Run {
                state: InputState { face_buttons: face_buttons@, stick_x, stick_y, dpad_button },
                frames: frame_duration as nat,
            }),
    {
        Self { face_buttons, stick_x, stick_y, dpad_button, frame_duration }
    }

    pub fn face_buttons(&self) -> (r: &[FaceButton])
        ensures
            r@ == self@.state.face_buttons,
    {
        self.face_buttons.as_slice()
    }

    pub fn stick_x(&self) -> (r: i8)
        ensures
            r == self@.state.stick_x,
    {
        self.stick_x
    }

    pub fn stick_y(&self) -> (r: i8)
        ensures
            r == self@.state.stick_y,
    {
        self.stick_y
    }

    pub fn dpad_button(&self) -> (r: DPadButton)
        ensures
            r == self@.state.dpad_button,
    {
        self.dpad_button
    }

    pub fn frame_duration(&self) -> (r: u32)
        ensures
            r == self@.frames,
    {
        self.frame_duration
    }
}

impl Clone for Input {
    fn clone(&self) -> (r: Self)
        ensures
            r@ == self@,
    {
        Input {
            face_buttons: copy_buttons(&self.face_buttons),
            stick_x: self.stick_x,
            stick_y: self.stick_y,
            dpad_button: self.dpad_button,
            frame_duration: self.frame_duration,
        }
    }
}

impl PartialEq for Input {
    fn eq(&self, other: &Self) -> (r: bool) {
        same_buttons(&self.face_buttons, &other.face_buttons) && self.stick_x == other.stick_x
            && self.stick_y == other.stick_y && self.dpad_button == other.dpad_button
            && self.frame_duration == other.frame_duration
    }
}

impl PartialEqSpecImpl for Input {
    open spec fn obeys_eq_spec() -> bool {
        true
    }

    open spec fn eq_spec(&self, other: &Self) -> bool {
        self@ == other@
    }
}

} // verus!
