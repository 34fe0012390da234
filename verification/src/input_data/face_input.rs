//! The face buttons: one record of the face button stream.

use vstd::prelude::*;
use vstd::std_specs::cmp::PartialEqSpecImpl;
use crate::input_data::run::Run;

verus! {

#[derive(Clone, Copy, Debug, PartialEq, Eq, Structural)]
pub enum FaceButtonError {
    /// A byte that is not zero and holds no button. No byte reads so: each
    /// bit but the pause bit is a button.
    NonExistentFaceButton,
    /// The drift bit is set, and the accelerator and the brake are not both
    /// held down.
    IllegalDriftInput,
}

#[derive(Clone, Copy, Debug, PartialEq, Eq, Structural)]
pub enum FaceButton {
    Accelerator,
    Brake,
    Item,
    Unknown,
}

/// The buttons that a button byte holds down, in the order accelerator,
/// brake, item, unknown.
///
/// Bit 0 is the accelerator, bit 1 the brake and bit 2 the item button. Bit 3
/// marks a drift, which is made with the brake: it counts as the brake too.
/// Bit 6 is set by CTGP on the frame of a pause and stands for no button.
/// Any other bit of the upper half counts as an unknown button, but not
/// beside the pause bit.
pub open spec fn face_buttons_of(value: u8) -> Seq<FaceButton> {
    let accelerator = if value & 0x01 != 0 {
        seq![FaceButton::Accelerator]
    } else {
        Seq::empty()
    };
    let brake = if value & 0x02 != 0 || value & 0x08 != 0 {
        seq![FaceButton::Brake]
    } else {
        Seq::empty()
    };
    let item = if value & 0x04 != 0 {
        seq![FaceButton::Item]
    } else {
        Seq::empty()
    };
    let unknown = if value & 0xF0 != 0 && value & 0x40 == 0 {
        seq![FaceButton::Unknown]
    } else {
        Seq::empty()
    };
    accelerator + brake + item + unknown
}

/// Whether a button byte is one that the game writes.
///
/// Bit 3 marks a drift: the game sets it while the brake button is held and
/// was pressed with the accelerator down. So it stands beside bits 0 and 1
/// only; every byte without it is legal.
pub open spec fn legal_face_byte(value: u8) -> bool {
    value & 0x08 == 0 || (value & 0x01 != 0 && value & 0x02 != 0)
}

/// Reads the buttons out of a button byte, and refuses a byte that the game
/// does not write.
pub fn parse_face_buttons(value: u8) -> (r: Result<Vec<FaceButton>, FaceButtonError>)
    ensures
        match r {
            Ok(buttons) => legal_face_byte(value) && buttons@ == face_buttons_of(value),
            Err(e) => !legal_face_byte(value) && e == FaceButtonError::IllegalDriftInput,
        },
{
    if value & 0x08 != 0 && (value & 0x01 == 0 || value & 0x02 == 0) {
        return Err(FaceButtonError::IllegalDriftInput);
    }
    let mut buttons: Vec<FaceButton> = Vec::new();

    if value & 0x01 != 0 {
        buttons.push(FaceButton::Accelerator);
    }
    if value & 0x02 != 0 || value & 0x08 != 0 {
        buttons.push(FaceButton::Brake);
    }
    if value & 0x04 != 0 {
        buttons.push(FaceButton::Item);
    }
    // 0x40 is the pause mask of CTGP and would count as unknown otherwise
    if value & 0xF0 != 0 && value & 0x40 == 0 {
        buttons.push(FaceButton::Unknown);
    }
    assert(buttons@ =~= face_buttons_of(value));
    Ok(buttons)
}

/// The pause mask of CTGP changes no reading: a byte that holds buttons in
/// its lower half only reads the same with the mask and without, and is
/// legal with it where it is legal without.
pub proof fn lemma_pause_mask_keeps_buttons(value: u8)
    requires
        value & 0xF0 == 0,
    ensures
        face_buttons_of(value | 0x40) == face_buttons_of(value),
        legal_face_byte(value | 0x40) == legal_face_byte(value),
{
    let masked = value | 0x40;
    assert(masked & 0x01 == value & 0x01 && masked & 0x02 == value & 0x02 && masked & 0x04 == value
        & 0x04 && masked & 0x08 == value & 0x08 && masked & 0x40 != 0) by (bit_vector)
        requires
            masked == value | 0x40,
    ;
}

#[derive(Clone, Copy, Debug, PartialEq, Eq, Structural)]
pub enum FaceInputError {
    /// The record is shorter than two bytes.
    InvalidFaceInput,
    /// The first byte of the record is not legal.
    InvalidButton(FaceButtonError),
}

#[derive(Debug)]
pub struct FaceInput {
    buttons: Vec<FaceButton>,
    frame_duration: u32,
}

impl View for FaceInput {
    type V = Run<Seq<FaceButton>>;

    closed spec fn view(&self) -> Run<Seq<FaceButton>> {
        Run { state: self.buttons@, frames: self.frame_duration as nat }
    }
}

/// The run that a record of the face button stream stands for: the buttons
/// of its first byte, held for as many frames as its second byte says.
pub open spec fn face_run(record: Seq<u8>) -> Run<Seq<FaceButton>> {
    Run { state: face_buttons_of(record[0]), frames: record[1] as nat }
}

/// Why a record of the face button stream cannot be read, if it cannot: it
/// is shorter than two bytes, or its first byte is not legal.
pub open spec fn face_record_fault(record: Seq<u8>) -> Option<FaceInputError> {
    if record.len() < 2 {
        Some(FaceInputError::InvalidFaceInput)
    } else if !legal_face_byte(record[0]) {
        Some(FaceInputError::InvalidButton(FaceButtonError::IllegalDriftInput))
    } else {
        None
    }
}

impl FaceInput {
    pub fn buttons(&self) -> (r: &Vec<FaceButton>)
        ensures
            r@ == self@.state,
    {
        &self.buttons
    }

    pub fn frame_duration(&self) -> (r: u32)
        ensures
            r == self@.frames,
    {
        self.frame_duration
    }

    pub fn set_frame_duration(&mut self, frame_duration: u32)
        ensures
            final(self)@ == (Run { state: old(self)@.state, frames: frame_duration as nat }),
    {
        self.frame_duration = frame_duration;
    }

    /// Reads one record. Bytes after the second are not looked at.
    pub fn try_from(value: &[u8]) -> (r: Result<FaceInput, FaceInputError>)
        ensures
            match r {
                Ok(input) => face_record_fault(value@) is None && input@ == face_run(value@),
                Err(e) => face_record_fault(value@) == Some(e),
            },
    {
        if value.len() < 2 {
            return Err(FaceInputError::InvalidFaceInput);
        }
        let buttons = match parse_face_buttons(value[0]) {
            Ok(buttons) => buttons,
            Err(e) => {
                return Err(FaceInputError::InvalidButton(e));
            },
        };
        let frame_duration = value[1] as u32;

        Ok(FaceInput { buttons, frame_duration })
    }

    /// A record of the same buttons, held for `frame_duration` frames.
    pub fn with_buttons_of(&self, frame_duration: u32) -> (r: FaceInput)
        ensures
            r@ == (Run { state: self@.state, frames: frame_duration as nat }),
    {
        FaceInput { buttons: copy_buttons(&self.buttons), frame_duration }
    }
}

/// A copy of a list of buttons.
pub fn copy_buttons(buttons: &Vec<FaceButton>) -> (r: Vec<FaceButton>)
    ensures
        r@ == buttons@,
{
    let mut copy: Vec<FaceButton> = Vec::new();
    let mut i: usize = 0;
    while i < buttons.len()
        invariant
            i <= buttons@.len(),
            copy@ == buttons@.take(i as int),
        decreases buttons@.len() - i,
    {
        copy.push(buttons[i]);
        i += 1;
        assert(copy@ =~= buttons@.take(i as int));
    }
    assert(buttons@.take(i as int) =~= buttons@);
    copy
}

/// Whether two lists hold the same buttons in the same order.
pub fn same_buttons(a: &Vec<FaceButton>, b: &Vec<FaceButton>) -> (r: bool)
    ensures
        r == (a@ == b@),
{
    if a.len() != b.len() {
        return false;
    }
    let mut i: usize = 0;
    while i < a.len()
        invariant
            i <= a@.len(),
            a@.len() == b@.len(),
            a@.take(i as int) == b@.take(i as int),
        decreases a@.len() - i,
    {
        if a[i] != b[i] {
            assert(a@[i as int] != b@[i as int]);
            return false;
        }
        i += 1;
        assert(a@.take(i as int) =~= a@.take(i - 1).push(a@[i - 1]));
        assert(b@.take(i as int) =~= b@.take(i - 1).push(b@[i - 1]));
    }
    assert(a@.take(i as int) =~= a@);
    assert(b@.take(i as int) =~= b@);
    true
}

/// Two records are equal where they hold the same buttons down, for however
/// many frames.
impl PartialEq for FaceInput {
    fn eq(&self, other: &Self) -> (r: bool) {
        same_buttons(&self.buttons, &other.buttons)
    }
}

impl PartialEqSpecImpl for FaceInput {
    open spec fn obeys_eq_spec() -> bool {
        true
    }

    open spec fn eq_spec(&self, other: &Self) -> bool {
        self@.state == other@.state
    }
}

} // verus!
