//! The lips of a Mii.

use vstd::prelude::*;
use vstd::std_specs::convert::TryFromSpecImpl;
use crate::byte_handler::field_at;
use crate::byte_handler::ByteHandler;
use crate::byte_handler::ByteHandlerError;

verus! {

#[derive(Clone, Copy, Debug, PartialEq, Eq, Structural)]
pub struct Lips {
    pub y: u8,
    pub size: u8,
    pub lips_type: LipsType,
    pub lips_color: LipsColor,
}

impl Lips {
    pub fn y(&self) -> (r: u8)
        ensures
            r == self.y,
    {
        self.y
    }

    pub fn size(&self) -> (r: u8)
        ensures
            r == self.size,
    {
        self.size
    }

    pub fn lips_type(&self) -> (r: LipsType)
        ensures
            r == self.lips_type,
    {
        self.lips_type
    }

    pub fn lips_color(&self) -> (r: LipsColor)
        ensures
            r == self.lips_color,
    {
        self.lips_color
    }

    pub fn from_byte_handler(handler: ByteHandler) -> (r: Result<Self, LipsError>)
        ensures
            r == lips_of(handler@),
    {
        proof {
            vstd::arithmetic::power2::lemma2_to64();
        }
        let lips_type = match LipsType::try_from(handler.copy_bits(11, 5) as u8) {
            Ok(lips_type) => lips_type,
            Err(_) => {
                return Err(LipsError::TypeInvalid);
            },
        };
        let y = handler.copy_bits(0, 5) as u8;
        let lips_color = match LipsColor::try_from(handler.copy_bits(9, 2) as u8) {
            Ok(lips_color) => lips_color,
            Err(_) => {
                return Err(LipsError::ColorInvalid);
            },
        };
        let size = handler.copy_bits(5, 4) as u8;

        Ok(Self { lips_type, y, lips_color, size })
    }
}

/// The lips that bytes 0x2E and 0x2F of a Mii hold, read as one word: five
/// bits of the type, two bits of the color, four bits of the size and five
/// bits of the height. The type is looked at first.
pub open spec fn lips_of(word: u32) -> Result<Lips, LipsError> {
    match lips_type_of(field_at(word, 11, 5) as u8) {
        Err(_) => Err(LipsError::TypeInvalid),
        Ok(lips_type) => match lips_color_of(field_at(word, 9, 2) as u8) {
            Err(_) => Err(LipsError::ColorInvalid),
            Ok(lips_color) => Ok(
                Lips {
                    y: field_at(word, 0, 5) as u8,
                    size: field_at(word, 5, 4) as u8,
                    lips_type,
                    lips_color,
                },
            ),
        },
    }
}

#[derive(Clone, Copy, Debug, PartialEq, Eq, Structural)]
pub enum LipsError {
    TypeInvalid,
    ColorInvalid,
    ByteHandlerError(ByteHandlerError),
}

#[derive(Clone, Copy, Debug, PartialEq, Eq, Structural)]
pub enum LipsColor {
    Orange,
    Red,
    Pink,
}

/// The color of lips that has the number `value`.
pub open spec fn lips_color_of(value: u8) -> Result<LipsColor, ()> {
    match value {
        0 => Ok(LipsColor::Orange),
        1 => Ok(LipsColor::Red),
        2 => Ok(LipsColor::Pink),
        _ => Err(()),
    }
}

impl TryFrom<u8> for LipsColor {
    type Error = ();

    fn try_from(value: u8) -> (r: Result<Self, Self::Error>) {
        match value {
            0 => Ok(Self::Orange),
            1 => Ok(Self::Red),
            2 => Ok(Self::Pink),
            _ => Err(()),
        }
    }
}

impl TryFromSpecImpl<u8> for LipsColor {
    open spec fn obeys_try_from_spec() -> bool {
        true
    }

    open spec fn try_from_spec(value: u8) -> Result<Self, Self::Error> {
        lips_color_of(value)
    }
}

#[derive(Clone, Copy, Debug, PartialEq, Eq, Structural)]
pub enum LipsType {
    Neutral,
    NeutralLips,
    Smile,
    SmileStroke,
    SmileTeeth,
    LipsSmall,
    LipsLarge,
    Wave,
    WaveAngrySmall,
    NeutralStrokeLarge,
    TeethSurprised,
    LipsExtraLarge,
    LipsUp,
    NeutralDown,
    Surprised,
    TeethMiddle,
    NeutralStroke,
    LipsExtraSmall,
    Malicious,
    LipsDual,
    NeutralComma,
    NeutralUp,
    TeethLarge,
    WaveAngry,
}

/// The kind of lips that has the number `value`.
pub open spec fn lips_type_of(value: u8) -> Result<LipsType, ()> {
    match value {
        0x17 => Ok(LipsType::Neutral),
        0x01 => Ok(LipsType::NeutralLips),
        0x13 => Ok(LipsType::Smile),
        0x15 => Ok(LipsType::SmileStroke),
        0x16 => Ok(LipsType::SmileTeeth),
        0x05 => Ok(LipsType::LipsSmall),
        0x00 => Ok(LipsType::LipsLarge),
        0x08 => Ok(LipsType::Wave),
        0x0A => Ok(LipsType::WaveAngrySmall),
        0x10 => Ok(LipsType::NeutralStrokeLarge),
        0x06 => Ok(LipsType::TeethSurprised),
        0x0D => Ok(LipsType::LipsExtraLarge),
        0x07 => Ok(LipsType::LipsUp),
        0x09 => Ok(LipsType::NeutralDown),
        0x02 => Ok(LipsType::Surprised),
        0x11 => Ok(LipsType::TeethMiddle),
        0x03 => Ok(LipsType::NeutralStroke),
        0x04 => Ok(LipsType::LipsExtraSmall),
        0x0F => Ok(LipsType::Malicious),
        0x0B => Ok(LipsType::LipsDual),
        0x14 => Ok(LipsType::NeutralComma),
        0x12 => Ok(LipsType::NeutralUp),
        0x0E => Ok(LipsType::TeethLarge),
        0x0C => Ok(LipsType::WaveAngry),
        _ => Err(()),
    }
}

impl TryFrom<u8> for LipsType {
    type Error = ();

    fn try_from(value: u8) -> (r: Result<Self, Self::Error>) {
        match value {
            0x17 => Ok(Self::Neutral),
            0x01 => Ok(Self::NeutralLips),
            0x13 => Ok(Self::Smile),
            0x15 => Ok(Self::SmileStroke),
            0x16 => Ok(Self::SmileTeeth),
            0x05 => Ok(Self::LipsSmall),
            0x00 => Ok(Self::LipsLarge),
            0x08 => Ok(Self::Wave),
            0x0A => Ok(Self::WaveAngrySmall),
            0x10 => Ok(Self::NeutralStrokeLarge),
            0x06 => Ok(Self::TeethSurprised),
            0x0D => Ok(Self::LipsExtraLarge),
            0x07 => Ok(Self::LipsUp),
            0x09 => Ok(Self::NeutralDown),
            0x02 => Ok(Self::Surprised),
            0x11 => Ok(Self::TeethMiddle),
            0x03 => Ok(Self::NeutralStroke),
            0x04 => Ok(Self::LipsExtraSmall),
            0x0F => Ok(Self::Malicious),
            0x0B => Ok(Self::LipsDual),
            0x14 => Ok(Self::NeutralComma),
            0x12 => Ok(Self::NeutralUp),
            0x0E => Ok(Self::TeethLarge),
            0x0C => Ok(Self::WaveAngry),
            _ => Err(()),
        }
    }
}

impl TryFromSpecImpl<u8> for LipsType {
    open spec fn obeys_try_from_spec() -> bool {
        true
    }

    open spec fn try_from_spec(value: u8) -> Result<Self, Self::Error> {
        lips_type_of(value)
    }
}

} // verus!
