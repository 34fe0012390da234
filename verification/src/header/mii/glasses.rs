//! The glasses of a Mii.

use vstd::prelude::*;
use vstd::std_specs::convert::TryFromSpecImpl;
use crate::byte_handler::field_at;
use crate::byte_handler::ByteHandler;
use crate::byte_handler::ByteHandlerError;

verus! {

#[derive(Clone, Copy, Debug, PartialEq, Eq, Structural)]
pub struct Glasses {
    pub y: u8,
    pub size: u8,
    pub glasses_type: GlassesType,
    pub glasses_color: GlassesColor,
}

impl Glasses {
    pub fn y(&self) -> (r: u8)
        ensures
            r == self.y,
    {
        self.y
    }

    pub fn size(&self) -> (r: u8)
        ensures
            r == self.size,
    {
        self.size
    }

    pub fn glasses_type(&self) -> (r: GlassesType)
        ensures
            r == self.glasses_type,
    {
        self.glasses_type
    }

    pub fn glasses_color(&self) -> (r: GlassesColor)
        ensures
            r == self.glasses_color,
    {
        self.glasses_color
    }

    pub fn from_byte_handler(handler: ByteHandler) -> (r: Result<Self, GlassesError>)
        ensures
            r == glasses_of(handler@),
    {
        proof {
            vstd::arithmetic::power2::lemma2_to64();
        }
        let glasses_type = match GlassesType::try_from(handler.copy_bits(12, 4) as u8) {
            Ok(glasses_type) => glasses_type,
            Err(_) => {
                return Err(GlassesError::TypeInvalid);
            },
        };
        let y = handler.copy_bits(0, 5) as u8;
        let glasses_color = match GlassesColor::try_from(handler.copy_bits(9, 2) as u8) {
            Ok(glasses_color) => glasses_color,
            Err(_) => {
                return Err(GlassesError::ColorInvalid);
            },
        };
        let size = handler.copy_bits(5, 4) as u8;

        Ok(Self { glasses_type, y, glasses_color, size })
    }
}

/// The glasses that bytes 0x30 and 0x31 of a Mii hold, read as one word:
/// four bits of the type, two bits of the color from bit 9 on, four bits of
/// the size and five bits of the height. The type is looked at first.
pub open spec fn glasses_of(word: u32) -> Result<Glasses, GlassesError> {
    match glasses_type_of(field_at(word, 12, 4) as u8) {
        Err(_) => Err(GlassesError::TypeInvalid),
        Ok(glasses_type) => match glasses_color_of(field_at(word, 9, 2) as u8) {
            Err(_) => Err(GlassesError::ColorInvalid),
            Ok(glasses_color) => Ok(
                Glasses {
                    y: field_at(word, 0, 5) as u8,
                    size: field_at(word, 5, 4) as u8,
                    glasses_type,
                    glasses_color,
                },
            ),
        },
    }
}

#[derive(Clone, Copy, Debug, PartialEq, Eq, Structural)]
pub enum GlassesError {
    TypeInvalid,
    ColorInvalid,
    ByteHandlerError(ByteHandlerError),
}

#[derive(Clone, Copy, Debug, PartialEq, Eq, Structural)]
pub enum GlassesColor {
    Black,
    Brown,
    Red,
    Blue,
    Yellow,
    Gray,
}

/// The color of glasses that has the number `value`.
pub open spec fn glasses_color_of(value: u8) -> Result<GlassesColor, ()> {
    match value {
        0 => Ok(GlassesColor::Black),
        1 => Ok(GlassesColor::Brown),
        2 => Ok(GlassesColor::Red),
        3 => Ok(GlassesColor::Blue),
        4 => Ok(GlassesColor::Yellow),
        5 => Ok(GlassesColor::Gray),
        _ => Err(()),
    }
}

impl TryFrom<u8> for GlassesColor {
    type Error = ();

    fn try_from(value: u8) -> (r: Result<Self, Self::Error>) {
        match value {
            0 => Ok(Self::Black),
            1 => Ok(Self::Brown),
            2 => Ok(Self::Red),
            3 => Ok(Self::Blue),
            4 => Ok(Self::Yellow),
            5 => Ok(Self::Gray),
            _ => Err(()),
        }
    }
}

impl TryFromSpecImpl<u8> for GlassesColor {
    open spec fn obeys_try_from_spec() -> bool {
        true
    }

    open spec fn try_from_spec(value: u8) -> Result<Self, Self::Error> {
        glasses_color_of(value)
    }
}

#[derive(Clone, Copy, Debug, PartialEq, Eq, Structural)]
pub enum GlassesType {
    NoGlasses,
    Square,
    Rectangle,
    Rounded,
    Oval,
    CatEye,
    SemiOpaqueAviator,
    SemiOpaqueRectangle,
    SemiOpaqueCatEye,
}

/// The kind of glasses that has the number `value`.
pub open spec fn glasses_type_of(value: u8) -> Result<GlassesType, ()> {
    match value {
        0 => Ok(GlassesType::NoGlasses),
        1 => Ok(GlassesType::Square),
        2 => Ok(GlassesType::Rectangle),
        3 => Ok(GlassesType::Rounded),
        4 => Ok(GlassesType::Oval),
        5 => Ok(GlassesType::CatEye),
        6 => Ok(GlassesType::SemiOpaqueAviator),
        7 => Ok(GlassesType::SemiOpaqueRectangle),
        8 => Ok(GlassesType::SemiOpaqueCatEye),
        _ => Err(()),
    }
}

impl TryFrom<u8> for GlassesType {
    type Error = ();

    fn try_from(value: u8) -> (r: Result<Self, Self::Error>) {
        match value {
            0 => Ok(Self::NoGlasses),
            1 => Ok(Self::Square),
            2 => Ok(Self::Rectangle),
            3 => Ok(Self::Rounded),
            4 => Ok(Self::Oval),
            5 => Ok(Self::CatEye),
            6 => Ok(Self::SemiOpaqueAviator),
            7 => Ok(Self::SemiOpaqueRectangle),
            8 => Ok(Self::SemiOpaqueCatEye),
            _ => Err(()),
        }
    }
}

impl TryFromSpecImpl<u8> for GlassesType {
    open spec fn obeys_try_from_spec() -> bool {
        true
    }

    open spec fn try_from_spec(value: u8) -> Result<Self, Self::Error> {
        glasses_type_of(value)
    }
}

} // verus!
