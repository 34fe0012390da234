//! The beard and the mustache of a Mii.

use vstd::prelude::*;
use vstd::std_specs::convert::TryFromSpecImpl;
use crate::byte_handler::field_at;
use crate::byte_handler::ByteHandler;
use crate::byte_handler::ByteHandlerError;
use crate::header::mii::hair::hair_color_of;
use crate::header::mii::hair::HairColor;

verus! {

#[derive(Clone, Copy, Debug, PartialEq, Eq, Structural)]
pub struct FacialHair {
    pub beard_type: BeardType,
    pub mustache_type: MustacheType,
    pub color: HairColor,
    pub mustache_size: u8,
    pub mustache_y: u8,
}

impl FacialHair {
    pub fn beard_type(&self) -> (r: BeardType)
        ensures
            r == self.beard_type,
    {
        self.beard_type
    }

    pub fn mustache_type(&self) -> (r: MustacheType)
        ensures
            r == self.mustache_type,
    {
        self.mustache_type
    }

    pub fn color(&self) -> (r: HairColor)
        ensures
            r == self.color,
    {
        self.color
    }

    pub fn mustache_size(&self) -> (r: u8)
        ensures
            r == self.mustache_size,
    {
        self.mustache_size
    }

    pub fn mustache_y(&self) -> (r: u8)
        ensures
            r == self.mustache_y,
    {
        self.mustache_y
    }

    pub fn from_byte_handler(handler: ByteHandler) -> (r: Result<Self, FacialHairError>)
        ensures
            r == facial_hair_of(handler@),
    {
        proof {
            vstd::arithmetic::power2::lemma2_to64();
        }
        let mustache_y = handler.copy_bits(0, 5) as u8;
        let mustache_size = handler.copy_bits(5, 4) as u8;
        let color = match HairColor::try_from(handler.copy_bits(9, 3) as u8) {
            Ok(color) => color,
            Err(_) => {
                return Err(FacialHairError::ColorInvalid);
            },
        };
        let mustache_type = match MustacheType::try_from(handler.copy_bits(14, 2) as u8) {
            Ok(mustache_type) => mustache_type,
            Err(_) => {
                return Err(FacialHairError::MustacheTypeInvalid);
            },
        };
        let beard_type = match BeardType::try_from(handler.copy_bits(12, 2) as u8) {
            Ok(beard_type) => beard_type,
            Err(_) => {
                return Err(FacialHairError::BeardTypeInvalid);
            },
        };
        Ok(Self { mustache_y, mustache_size, color, mustache_type, beard_type })
    }
}

/// The beard and the mustache that bytes 0x32 and 0x33 of a Mii hold, read
/// as one word: two bits of the kind of mustache, two bits of the kind of
/// beard, three bits of the color, four bits of the size of the mustache
/// and five bits of its height. The color is looked at first, then the
/// mustache, then the beard.
pub open spec fn facial_hair_of(word: u32) -> Result<FacialHair, FacialHairError> {
    match hair_color_of(field_at(word, 9, 3) as u8) {
        Err(_) => Err(FacialHairError::ColorInvalid),
        Ok(color) => match mustache_type_of(field_at(word, 14, 2) as u8) {
            Err(_) => Err(FacialHairError::MustacheTypeInvalid),
            Ok(mustache_type) => match beard_type_of(field_at(word, 12, 2) as u8) {
                Err(_) => Err(FacialHairError::BeardTypeInvalid),
                Ok(beard_type) => Ok(
                    FacialHair {
                        beard_type,
                        mustache_type,
                        color,
                        mustache_size: field_at(word, 5, 4) as u8,
                        mustache_y: field_at(word, 0, 5) as u8,
                    },
                ),
            },
        },
    }
}

#[derive(Clone, Copy, Debug, PartialEq, Eq, Structural)]
pub enum FacialHairError {
    BeardTypeInvalid,
    MustacheTypeInvalid,
    ColorInvalid,
    ByteHandlerError(ByteHandlerError),
}

#[derive(Clone, Copy, Debug, PartialEq, Eq, Structural)]
pub enum BeardType {
    NoBeard,
    Goatee,
    GoateeLong,
    LionsManeLong,
}

/// The kind of beard that has the number `value`.
pub open spec fn beard_type_of(value: u8) -> Result<BeardType, ()> {
    match value {
        0 => Ok(BeardType::NoBeard),
        1 => Ok(BeardType::Goatee),
        2 => Ok(BeardType::GoateeLong),
        3 => Ok(BeardType::LionsManeLong),
        _ => Err(()),
    }
}

impl TryFrom<u8> for BeardType {
    type Error = ();

    fn try_from(value: u8) -> (r: Result<Self, Self::Error>) {
        match value {
            0 => Ok(Self::NoBeard),
            1 => Ok(Self::Goatee),
            2 => Ok(Self::GoateeLong),
            3 => Ok(Self::LionsManeLong),
            _ => Err(()),
        }
    }
}

impl TryFromSpecImpl<u8> for BeardType {
    open spec fn obeys_try_from_spec() -> bool {
        true
    }

    open spec fn try_from_spec(value: u8) -> Result<Self, Self::Error> {
        beard_type_of(value)
    }
}

#[derive(Clone, Copy, Debug, PartialEq, Eq, Structural)]
pub enum MustacheType {
    NoMustache,
    Walrus,
    Pencil,
    Horseshoe,
}

/// The kind of mustache that has the number `value`.
pub open spec fn mustache_type_of(value: u8) -> Result<MustacheType, ()> {
    match value {
        0 => Ok(MustacheType::NoMustache),
        1 => Ok(MustacheType::Walrus),
        2 => Ok(MustacheType::Pencil),
        3 => Ok(MustacheType::Horseshoe),
        _ => Err(()),
    }
}

impl TryFrom<u8> for MustacheType {
    type Error = ();

    fn try_from(value: u8) -> (r: Result<Self, Self::Error>) {
        match value {
            0 => Ok(Self::NoMustache),
            1 => Ok(Self::Walrus),
            2 => Ok(Self::Pencil),
            3 => Ok(Self::Horseshoe),
            _ => Err(()),
        }
    }
}

impl TryFromSpecImpl<u8> for MustacheType {
    open spec fn obeys_try_from_spec() -> bool {
        true
    }

    open spec fn try_from_spec(value: u8) -> Result<Self, Self::Error> {
        mustache_type_of(value)
    }
}

} // verus!
