//! The nose of a Mii.

use vstd::prelude::*;
use vstd::std_specs::convert::TryFromSpecImpl;
use crate::byte_handler::field_at;
use crate::byte_handler::ByteHandler;
use crate::byte_handler::ByteHandlerError;

verus! {

#[derive(Clone, Copy, Debug, PartialEq, Eq, Structural)]
pub struct Nose {
    pub y: u8,
    pub size: u8,
    pub nose_type: NoseType,
}

#[derive(Clone, Copy, Debug, PartialEq, Eq, Structural)]
pub enum NoseError {
    TypeInvalid,
    ByteHandlerError(ByteHandlerError),
}

/// The nose that bytes 0x2C and 0x2D of a Mii hold, read as one word: four
/// bits of the type, four bits of the size and five bits of the height.
pub open spec fn nose_of(word: u32) -> Result<Nose, NoseError> {
    match nose_type_of(field_at(word, 12, 4) as u8) {
        Ok(nose_type) => Ok(
            Nose { y: field_at(word, 3, 5) as u8, size: field_at(word, 8, 4) as u8, nose_type },
        ),
        Err(_) => Err(NoseError::TypeInvalid),
    }
}

impl Nose {
    pub fn y(&self) -> (r: u8)
        ensures
            r == self.y,
    {
        self.y
    }

    pub fn size(&self) -> (r: u8)
        ensures
            r == self.size,
    {
        self.size
    }

    pub fn nose_type(&self) -> (r: NoseType)
        ensures
            r == self.nose_type,
    {
        self.nose_type
    }

    pub fn from_byte_handler(handler: ByteHandler) -> (r: Result<Self, NoseError>)
        ensures
            r == nose_of(handler@),
    {
        proof {
            vstd::arithmetic::power2::lemma2_to64();
        }
        let nose_type = match NoseType::try_from(handler.copy_bits(12, 4) as u8) {
            Ok(nose_type) => nose_type,
            Err(_) => {
                return Err(NoseError::TypeInvalid);
            },
        };
        Ok(
            Self {
                nose_type,
                size: handler.copy_bits(8, 4) as u8,
                y: handler.copy_bits(3, 5) as u8,
            },
        )
    }
}

#[derive(Clone, Copy, Debug, PartialEq, Eq, Structural)]
pub enum NoseType {
    Normal,
    Rounded,
    Dot,
    Arrow,
    Roman,
    Triangle,
    Button,
    RoundedInverted,
    Potato,
    Grecian,
    Snub,
    Aquiline,
}

/// The kind of nose that has the number `value`.
pub open spec fn nose_type_of(value: u8) -> Result<NoseType, ()> {
    match value {
        0x01 => Ok(NoseType::Normal),
        0x0A => Ok(NoseType::Rounded),
        0x02 => Ok(NoseType::Dot),
        0x03 => Ok(NoseType::Arrow),
        0x06 => Ok(NoseType::Roman),
        0x00 => Ok(NoseType::Triangle),
        0x05 => Ok(NoseType::Button),
        0x04 => Ok(NoseType::RoundedInverted),
        0x08 => Ok(NoseType::Potato),
        0x09 => Ok(NoseType::Grecian),
        0x07 => Ok(NoseType::Snub),
        0x0B => Ok(NoseType::Aquiline),
        _ => Err(()),
    }
}

impl TryFrom<u8> for NoseType {
    type Error = ();

    fn try_from(value: u8) -> (r: Result<Self, Self::Error>) {
        match value {
            0x01 => Ok(Self::Normal),
            0x0A => Ok(Self::Rounded),
            0x02 => Ok(Self::Dot),
            0x03 => Ok(Self::Arrow),
            0x06 => Ok(Self::Roman),
            0x00 => Ok(Self::Triangle),
            0x05 => Ok(Self::Button),
            0x04 => Ok(Self::RoundedInverted),
            0x08 => Ok(Self::Potato),
            0x09 => Ok(Self::Grecian),
            0x07 => Ok(Self::Snub),
            0x0B => Ok(Self::Aquiline),
            _ => Err(()),
        }
    }
}

impl TryFromSpecImpl<u8> for NoseType {
    open spec fn obeys_try_from_spec() -> bool {
        true
    }

    open spec fn try_from_spec(value: u8) -> Result<Self, Self::Error> {
        nose_type_of(value)
    }
}

} // verus!
