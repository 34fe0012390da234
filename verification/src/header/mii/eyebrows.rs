//! The eyebrows of a Mii.

use vstd::prelude::*;
use vstd::std_specs::convert::TryFromSpecImpl;
use crate::byte_handler::field_at;
use crate::byte_handler::ByteHandler;
use crate::byte_handler::ByteHandlerError;
use crate::header::mii::hair::hair_color_of;
use crate::header::mii::hair::HairColor;

verus! {

#[derive(Clone, Copy, Debug, PartialEq, Eq, Structural)]
pub struct Eyebrows {
    pub rotation: u8,
    pub size: u8,
    pub x: u8,
    pub y: u8,
    pub eyebrow_color: HairColor,
    pub eyebrow_type: EyebrowType,
}

impl Eyebrows {
    pub fn rotation(&self) -> (r: u8)
        ensures
            r == self.rotation,
    {
        self.rotation
    }

    pub fn size(&self) -> (r: u8)
        ensures
            r == self.size,
    {
        self.size
    }

    pub fn x(&self) -> (r: u8)
        ensures
            r == self.x,
    {
        self.x
    }

    pub fn y(&self) -> (r: u8)
        ensures
            r == self.y,
    {
        self.y
    }

    pub fn eyebrow_color(&self) -> (r: HairColor)
        ensures
            r == self.eyebrow_color,
    {
        self.eyebrow_color
    }

    pub fn eyebrow_type(&self) -> (r: EyebrowType)
        ensures
            r == self.eyebrow_type,
    {
        self.eyebrow_type
    }

    pub fn from_byte_handler(handler: ByteHandler) -> (r: Result<Self, EyebrowsError>)
        ensures
            r == eyebrows_of(handler@),
    {
        proof {
            vstd::arithmetic::power2::lemma2_to64();
        }
        let x = handler.copy_bits(0, 4) as u8;
        let eyebrow_type = match EyebrowType::try_from(handler.copy_bits(27, 5) as u8) {
            Ok(eyebrow_type) => eyebrow_type,
            Err(_) => {
                return Err(EyebrowsError::TypeInvalid);
            },
        };
        let eyebrow_color = match HairColor::try_from(handler.copy_bits(13, 3) as u8) {
            Ok(eyebrow_color) => eyebrow_color,
            Err(_) => {
                return Err(EyebrowsError::ColorInvalid);
            },
        };
        let y = handler.copy_bits(4, 5) as u8;
        let size = handler.copy_bits(9, 4) as u8;
        let rotation = handler.copy_bits(22, 5) as u8;
        Ok(Self { size, rotation, x, y, eyebrow_type, eyebrow_color })
    }
}

/// The eyebrows that bytes 0x24 to 0x27 of a Mii hold, read as one word:
/// from the top, five bits of the type, five bits of the turn, six bits
/// that are not read, three bits of the color, four bits of the size, five
/// bits of the height and four bits of the room between the two. The type
/// is looked at first.
pub open spec fn eyebrows_of(word: u32) -> Result<Eyebrows, EyebrowsError> {
    match eyebrow_type_of(field_at(word, 27, 5) as u8) {
        Err(_) => Err(EyebrowsError::TypeInvalid),
        Ok(eyebrow_type) => match hair_color_of(field_at(word, 13, 3) as u8) {
            Err(_) => Err(EyebrowsError::ColorInvalid),
            Ok(eyebrow_color) => Ok(
                Eyebrows {
                    rotation: field_at(word, 22, 5) as u8,
                    size: field_at(word, 9, 4) as u8,
                    x: field_at(word, 0, 4) as u8,
                    y: field_at(word, 4, 5) as u8,
                    eyebrow_color,
                    eyebrow_type,
                },
            ),
        },
    }
}

#[derive(Clone, Copy, Debug, PartialEq, Eq, Structural)]
pub enum EyebrowsError {
    TypeInvalid,
    ColorInvalid,
    ByteHandlerError(ByteHandlerError),
}

#[derive(Clone, Copy, Debug, PartialEq, Eq, Structural)]
pub enum EyebrowType {
    FlatAngledLarge,
    LowArchRoundedThin,
    SoftAngledLarge,
    MediumArchRoundedThin,
    RoundedMedium,
    LowArchMedium,
    RoundedThin,
    UpThin,
    MediumArchRoundedMedium,
    RoundedLarge,
    UpLarge,
    FlatAngledLargeInverted,
    MediumArchFlat,
    AngledThin,
    HorizontalLarge,
    HighArchFlat,
    Flat,
    MediumArchLarge,
    LowArchThin,
    RoundedThinInverted,
    HighArchLarge,
    Hairy,
    Dotted,
    NoEyebrows,
}

/// The kind of eyebrows that has the number `value`.
pub open spec fn eyebrow_type_of(value: u8) -> Result<EyebrowType, ()> {
    match value {
        0x06 => Ok(EyebrowType::FlatAngledLarge),
        0x00 => Ok(EyebrowType::LowArchRoundedThin),
        0x0c => Ok(EyebrowType::SoftAngledLarge),
        0x01 => Ok(EyebrowType::MediumArchRoundedThin),
        0x09 => Ok(EyebrowType::RoundedMedium),
        0x13 => Ok(EyebrowType::LowArchMedium),
        0x07 => Ok(EyebrowType::RoundedThin),
        0x15 => Ok(EyebrowType::UpThin),
        0x08 => Ok(EyebrowType::MediumArchRoundedMedium),
        0x11 => Ok(EyebrowType::RoundedLarge),
        0x05 => Ok(EyebrowType::UpLarge),
        0x04 => Ok(EyebrowType::FlatAngledLargeInverted),
        0x0B => Ok(EyebrowType::MediumArchFlat),
        0x0A => Ok(EyebrowType::AngledThin),
        0x02 => Ok(EyebrowType::HorizontalLarge),
        0x03 => Ok(EyebrowType::HighArchFlat),
        0x0E => Ok(EyebrowType::Flat),
        0x14 => Ok(EyebrowType::MediumArchLarge),
        0x0F => Ok(EyebrowType::LowArchThin),
        0x0D => Ok(EyebrowType::RoundedThinInverted),
        0x16 => Ok(EyebrowType::HighArchLarge),
        0x12 => Ok(EyebrowType::Hairy),
        0x10 => Ok(EyebrowType::Dotted),
        0x17 => Ok(EyebrowType::NoEyebrows),
        _ => Err(()),
    }
}

impl TryFrom<u8> for EyebrowType {
    type Error = ();

    fn try_from(value: u8) -> (r: Result<Self, Self::Error>) {
        match value {
            0x06 => Ok(Self::FlatAngledLarge),
            0x00 => Ok(Self::LowArchRoundedThin),
            0x0c => Ok(Self::SoftAngledLarge),
            0x01 => Ok(Self::MediumArchRoundedThin),
            0x09 => Ok(Self::RoundedMedium),
            0x13 => Ok(Self::LowArchMedium),
            0x07 => Ok(Self::RoundedThin),
            0x15 => Ok(Self::UpThin),
            0x08 => Ok(Self::MediumArchRoundedMedium),
            0x11 => Ok(Self::RoundedLarge),
            0x05 => Ok(Self::UpLarge),
            0x04 => Ok(Self::FlatAngledLargeInverted),
            0x0B => Ok(Self::MediumArchFlat),
            0x0A => Ok(Self::AngledThin),
            0x02 => Ok(Self::HorizontalLarge),
            0x03 => Ok(Self::HighArchFlat),
            0x0E => Ok(Self::Flat),
            0x14 => Ok(Self::MediumArchLarge),
            0x0F => Ok(Self::LowArchThin),
            0x0D => Ok(Self::RoundedThinInverted),
            0x16 => Ok(Self::HighArchLarge),
            0x12 => Ok(Self::Hairy),
            0x10 => Ok(Self::Dotted),
            0x17 => Ok(Self::NoEyebrows),
            _ => Err(()),
        }
    }
}

impl TryFromSpecImpl<u8> for EyebrowType {
    open spec fn obeys_try_from_spec() -> bool {
        true
    }

    open spec fn try_from_spec(value: u8) -> Result<Self, Self::Error> {
        eyebrow_type_of(value)
    }
}

} // verus!
