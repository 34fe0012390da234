//! The kind of controller that a ghost was driven with.

use vstd::prelude::*;
use vstd::std_specs::convert::FromSpecImpl;
use vstd::std_specs::convert::TryFromSpecImpl;
use crate::byte_handler::field_at;
use crate::byte_handler::ByteHandler;
use crate::byte_handler::ByteHandlerError;

verus! {

#[derive(Clone, Copy, Debug, PartialEq, Eq, Structural)]
pub enum ControllerError {
    NonexistentControllerID,
    ByteHandlerError(ByteHandlerError),
}

#[derive(Clone, Copy, Debug, PartialEq, Eq, Structural)]
pub enum Controller {
    WiiWheel,
    Nunchuk,
    Classic,
    Gamecube,
}

/// The controller that the code `value` stands for.
pub open spec fn controller_of(value: u8) -> Result<Controller, ControllerError> {
    match value {
        0 => Ok(Controller::WiiWheel),
        1 => Ok(Controller::Nunchuk),
        2 => Ok(Controller::Classic),
        3 => Ok(Controller::Gamecube),
        _ => Err(ControllerError::NonexistentControllerID),
    }
}

/// The code that stands for a controller.
pub open spec fn controller_code(value: Controller) -> u8 {
    match value {
        Controller::WiiWheel => 0,
        Controller::Nunchuk => 1,
        Controller::Classic => 2,
        Controller::Gamecube => 3,
    }
}

impl Controller {
    /// Reads the controller out of byte 0x0B of the header: its lower half.
    pub fn from_byte_handler(handler: ByteHandler) -> (r: Result<Self, ControllerError>)
        ensures
            r == controller_of(field_at(handler@, 0, 4) as u8),
    {
        proof {
            vstd::arithmetic::power2::lemma2_to64();
        }
        Controller::try_from(handler.copy_bits(0, 4) as u8)
    }
}

impl TryFrom<u8> for Controller {
    type Error = ControllerError;

    fn try_from(value: u8) -> (r: Result<Self, Self::Error>) {
        match value {
            0 => Ok(Self::WiiWheel),
            1 => Ok(Self::Nunchuk),
            2 => Ok(Self::Classic),
            3 => Ok(Self::Gamecube),
            _ => Err(ControllerError::NonexistentControllerID),
        }
    }
}

impl TryFromSpecImpl<u8> for Controller {
    open spec fn obeys_try_from_spec() -> bool {
        true
    }

    open spec fn try_from_spec(value: u8) -> Result<Self, Self::Error> {
        controller_of(value)
    }
}

impl From<Controller> for u8 {
    fn from(value: Controller) -> (r: u8) {
        match value {
            Controller::WiiWheel => 0,
            Controller::Nunchuk => 1,
            Controller::Classic => 2,
            Controller::Gamecube => 3,
        }
    }
}

impl FromSpecImpl<Controller> for u8 {
    open spec fn obeys_from_spec() -> bool {
        true
    }

    open spec fn from_spec(value: Controller) -> u8 {
        controller_code(value)
    }
}

/// Each controller is read back from its own code.
pub proof fn lemma_controller_code_read_back(value: Controller)
    ensures
        controller_of(controller_code(value)) == Ok::<_, ControllerError>(value),
{
}

} // verus!
