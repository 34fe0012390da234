//! The eyes of a Mii.

use vstd::prelude::*;
use vstd::std_specs::convert::TryFromSpecImpl;
use crate::byte_handler::field_at;
use crate::byte_handler::ByteHandler;
use crate::byte_handler::ByteHandlerError;

verus! {

#[derive(Clone, Copy, Debug, PartialEq, Eq, Structural)]
pub struct Eyes {
    pub rotation: u8,
    pub size: u8,
    pub x: u8,
    pub y: u8,
    pub eye_color: EyeColor,
    pub eye_type: EyeType,
}

impl Eyes {
    pub fn rotation(&self) -> (r: u8)
        ensures
            r == self.rotation,
    {
        self.rotation
    }

    pub fn size(&self) -> (r: u8)
        ensures
            r == self.size,
    {
        self.size
    }

    pub fn x(&self) -> (r: u8)
        ensures
            r == self.x,
    {
        self.x
    }

    pub fn y(&self) -> (r: u8)
        ensures
            r == self.y,
    {
        self.y
    }

    pub fn eye_color(&self) -> (r: EyeColor)
        ensures
            r == self.eye_color,
    {
        self.eye_color
    }

    pub fn eye_type(&self) -> (r: EyeType)
        ensures
            r == self.eye_type,
    {
        self.eye_type
    }

    pub fn from_byte_handler(handler: ByteHandler) -> (r: Result<Self, EyesError>)
        ensures
            r == eyes_of(handler@),
    {
        proof {
            vstd::arithmetic::power2::lemma2_to64();
        }
        let eye_type = match EyeType::try_from(handler.copy_bits(26, 6) as u8) {
            Ok(eye_type) => eye_type,
            Err(_) => {
                return Err(EyesError::TypeInvalid);
            },
        };
        let eye_color = match EyeColor::try_from(handler.copy_bits(13, 3) as u8) {
            Ok(eye_color) => eye_color,
            Err(_) => {
                return Err(EyesError::ColorInvalid);
            },
        };
        let y = handler.copy_bits(16, 5) as u8;
        let rotation = handler.copy_bits(21, 5) as u8;
        let x = handler.copy_bits(5, 4) as u8;
        let size = handler.copy_bits(9, 4) as u8;

        Ok(Self { size, rotation, x, y, eye_type, eye_color })
    }
}

/// The eyes that bytes 0x28 to 0x2B of a Mii hold, read as one word: from
/// the top, six bits of the type, five bits of the turn, five bits of the
/// height, three bits of the color, four bits of the size and four bits of
/// the room between the two. The type is looked at first.
pub open spec fn eyes_of(word: u32) -> Result<Eyes, EyesError> {
    match eye_type_of(field_at(word, 26, 6) as u8) {
        Err(_) => Err(EyesError::TypeInvalid),
        Ok(eye_type) => match eye_color_of(field_at(word, 13, 3) as u8) {
            Err(_) => Err(EyesError::ColorInvalid),
            Ok(eye_color) => Ok(
                Eyes {
                    rotation: field_at(word, 21, 5) as u8,
                    size: field_at(word, 9, 4) as u8,
                    x: field_at(word, 5, 4) as u8,
                    y: field_at(word, 16, 5) as u8,
                    eye_color,
                    eye_type,
                },
            ),
        },
    }
}

#[derive(Clone, Copy, Debug, PartialEq, Eq, Structural)]
pub enum EyesError {
    TypeInvalid,
    ColorInvalid,
    ByteHandlerError(ByteHandlerError),
}

#[derive(Clone, Copy, Debug, PartialEq, Eq, Structural)]
pub enum EyeColor {
    Black,
    Gray,
    Brown,
    Hazel,
    Blue,
    Green,
}

/// The color of eyes that has the number `value`.
pub open spec fn eye_color_of(value: u8) -> Result<EyeColor, ()> {
    match value {
        0x00 => Ok(EyeColor::Black),
        0x01 => Ok(EyeColor::Gray),
        0x02 => Ok(EyeColor::Brown),
        0x03 => Ok(EyeColor::Hazel),
        0x04 => Ok(EyeColor::Blue),
        0x05 => Ok(EyeColor::Green),
        _ => Err(()),
    }
}

impl TryFrom<u8> for EyeColor {
    type Error = ();

    fn try_from(value: u8) -> (r: Result<Self, Self::Error>) {
        match value {
            0x00 => Ok(Self::Black),
            0x01 => Ok(Self::Gray),
            0x02 => Ok(Self::Brown),
            0x03 => Ok(Self::Hazel),
            0x04 => Ok(Self::Blue),
            0x05 => Ok(Self::Green),
            _ => Err(()),
        }
    }
}

impl TryFromSpecImpl<u8> for EyeColor {
    open spec fn obeys_try_from_spec() -> bool {
        true
    }

    open spec fn try_from_spec(value: u8) -> Result<Self, Self::Error> {
        eye_color_of(value)
    }
}

#[derive(Clone, Copy, Debug, PartialEq, Eq, Structural)]
pub enum EyeType {
    Normal,
    NormalLash,
    WhiteLash,
    WhiteNoBottom,
    OvalAngledWhite,
    AngryWhite,
    DotLashType1,
    Line,
    DotLine,
    OvalWhite,
    RoundedWhite,
    NormalShadow,
    CircleWhite,
    Circle,
    CircleWhiteStroke,
    NormalOvalNoBottom,
    NormalOvalLarge,
    NormalRoundedNoBottom,
    SmallLash,
    Small,
    TwoSmall,
    NormalLongLash,
    WhiteTwoLashes,
    WhiteThreeLashes,
    DotAngry,
    DotAngled,
    Oval,
    SmallWhite,
    WhiteAngledNoBottom,
    WhiteAngledNoLeft,
    SmallWhiteTwoLashes,
    LeafWhiteLash,
    WhiteLargeNoBottom,
    Dot,
    DotLashType2,
    DotThreeLashes,
    WhiteOvalTop,
    WhiteOvalBottom,
    WhiteOvalBottomFlat,
    WhiteOvalTwoLashes,
    WhiteOvalThreeLashes,
    WhiteOvalNoBottomTwoLashes,
    DotWhite,
    WhiteOvalTopFlat,
    WhiteThinLeaf,
    StarThreeLashes,
    LineTwoLashes,
    CrowsFeet,
}

/// The kind of eyes that has the number `value`.
pub open spec fn eye_type_of(value: u8) -> Result<EyeType, ()> {
    match value {
        0x02 => Ok(EyeType::Normal),
        0x04 => Ok(EyeType::NormalLash),
        0x00 => Ok(EyeType::WhiteLash),
        0x08 => Ok(EyeType::WhiteNoBottom),
        0x27 => Ok(EyeType::OvalAngledWhite),
        0x11 => Ok(EyeType::AngryWhite),
        0x01 => Ok(EyeType::DotLashType1),
        0x1A => Ok(EyeType::Line),
        0x10 => Ok(EyeType::DotLine),
        0x0F => Ok(EyeType::OvalWhite),
        0x1B => Ok(EyeType::RoundedWhite),
        0x14 => Ok(EyeType::NormalShadow),
        0x21 => Ok(EyeType::CircleWhite),
        0x0B => Ok(EyeType::Circle),
        0x13 => Ok(EyeType::CircleWhiteStroke),
        0x20 => Ok(EyeType::NormalOvalNoBottom),
        0x09 => Ok(EyeType::NormalOvalLarge),
        0x0C => Ok(EyeType::NormalRoundedNoBottom),
        0x17 => Ok(EyeType::SmallLash),
        0x22 => Ok(EyeType::Small),
        0x15 => Ok(EyeType::TwoSmall),
        0x19 => Ok(EyeType::NormalLongLash),
        0x28 => Ok(EyeType::WhiteTwoLashes),
        0x23 => Ok(EyeType::WhiteThreeLashes),
        0x05 => Ok(EyeType::DotAngry),
        0x29 => Ok(EyeType::DotAngled),
        0x0D => Ok(EyeType::Oval),
        0x24 => Ok(EyeType::SmallWhite),
        0x25 => Ok(EyeType::WhiteAngledNoBottom),
        0x06 => Ok(EyeType::WhiteAngledNoLeft),
        0x18 => Ok(EyeType::SmallWhiteTwoLashes),
        0x1E => Ok(EyeType::LeafWhiteLash),
        0x1F => Ok(EyeType::WhiteLargeNoBottom),
        0x12 => Ok(EyeType::Dot),
        0x1C => Ok(EyeType::DotLashType2),
        0x2E => Ok(EyeType::DotThreeLashes),
        0x07 => Ok(EyeType::WhiteOvalTop),
        0x2C => Ok(EyeType::WhiteOvalBottom),
        0x26 => Ok(EyeType::WhiteOvalBottomFlat),
        0x2A => Ok(EyeType::WhiteOvalTwoLashes),
        0x2D => Ok(EyeType::WhiteOvalThreeLashes),
        0x1D => Ok(EyeType::WhiteOvalNoBottomTwoLashes),
        0x03 => Ok(EyeType::DotWhite),
        0x2B => Ok(EyeType::WhiteOvalTopFlat),
        0x16 => Ok(EyeType::WhiteThinLeaf),
        0x0A => Ok(EyeType::StarThreeLashes),
        0x0E => Ok(EyeType::LineTwoLashes),
        0x2F => Ok(EyeType::CrowsFeet),
        _ => Err(()),
    }
}

impl TryFrom<u8> for EyeType {
    type Error = ();

    fn try_from(value: u8) -> (r: Result<Self, Self::Error>) {
        match value {
            0x02 => Ok(Self::Normal),
            0x04 => Ok(Self::NormalLash),
            0x00 => Ok(Self::WhiteLash),
            0x08 => Ok(Self::WhiteNoBottom),
            0x27 => Ok(Self::OvalAngledWhite),
            0x11 => Ok(Self::AngryWhite),
            0x01 => Ok(Self::DotLashType1),
            0x1A => Ok(Self::Line),
            0x10 => Ok(Self::DotLine),
            0x0F => Ok(Self::OvalWhite),
            0x1B => Ok(Self::RoundedWhite),
            0x14 => Ok(Self::NormalShadow),
            0x21 => Ok(Self::CircleWhite),
            0x0B => Ok(Self::Circle),
            0x13 => Ok(Self::CircleWhiteStroke),
            0x20 => Ok(Self::NormalOvalNoBottom),
            0x09 => Ok(Self::NormalOvalLarge),
            0x0C => Ok(Self::NormalRoundedNoBottom),
            0x17 => Ok(Self::SmallLash),
            0x22 => Ok(Self::Small),
            0x15 => Ok(Self::TwoSmall),
            0x19 => Ok(Self::NormalLongLash),
            0x28 => Ok(Self::WhiteTwoLashes),
            0x23 => Ok(Self::WhiteThreeLashes),
            0x05 => Ok(Self::DotAngry),
            0x29 => Ok(Self::DotAngled),
            0x0D => Ok(Self::Oval),
            0x24 => Ok(Self::SmallWhite),
            0x25 => Ok(Self::WhiteAngledNoBottom),
            0x06 => Ok(Self::WhiteAngledNoLeft),
            0x18 => Ok(Self::SmallWhiteTwoLashes),
            0x1E => Ok(Self::LeafWhiteLash),
            0x1F => Ok(Self::WhiteLargeNoBottom),
            0x12 => Ok(Self::Dot),
            0x1C => Ok(Self::DotLashType2),
            0x2E => Ok(Self::DotThreeLashes),
            0x07 => Ok(Self::WhiteOvalTop),
            0x2C => Ok(Self::WhiteOvalBottom),
            0x26 => Ok(Self::WhiteOvalBottomFlat),
            0x2A => Ok(Self::WhiteOvalTwoLashes),
            0x2D => Ok(Self::WhiteOvalThreeLashes),
            0x1D => Ok(Self::WhiteOvalNoBottomTwoLashes),
            0x03 => Ok(Self::DotWhite),
            0x2B => Ok(Self::WhiteOvalTopFlat),
            0x16 => Ok(Self::WhiteThinLeaf),
            0x0A => Ok(Self::StarThreeLashes),
            0x0E => Ok(Self::LineTwoLashes),
            0x2F => Ok(Self::CrowsFeet),
            _ => Err(()),
        }
    }
}

impl TryFromSpecImpl<u8> for EyeType {
    open spec fn obeys_try_from_spec() -> bool {
        true
    }

    open spec fn try_from_spec(value: u8) -> Result<Self, Self::Error> {
        eye_type_of(value)
    }
}

} // verus!
