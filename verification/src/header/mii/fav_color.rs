//! The favorite color of a Mii, which is the color of its clothes.

use vstd::prelude::*;
use vstd::std_specs::convert::FromSpecImpl;
use vstd::std_specs::convert::TryFromSpecImpl;
use crate::byte_handler::field_at;
use crate::byte_handler::ByteHandler;
use crate::byte_handler::ByteHandlerError;

verus! {

#[derive(Clone, Copy, Debug, PartialEq, Eq, Structural)]
pub enum FavColorError {
    ColorInvalid,
    ByteHandlerError(ByteHandlerError),
}

#[derive(Clone, Copy, Debug, PartialEq, Eq, Structural)]
pub enum FavColor {
    Red,
    Orange,
    Yellow,
    LimeGreen,
    ForestGreen,
    RoyalBlue,
    SkyBlue,
    Pink,
    Purple,
    Brown,
    White,
    Black,
}

/// The color that has the number `value`.
pub open spec fn fav_color_of(value: u8) -> Result<FavColor, FavColorError> {
    match value {
        0 => Ok(FavColor::Red),
        1 => Ok(FavColor::Orange),
        2 => Ok(FavColor::Yellow),
        3 => Ok(FavColor::LimeGreen),
        4 => Ok(FavColor::ForestGreen),
        5 => Ok(FavColor::RoyalBlue),
        6 => Ok(FavColor::SkyBlue),
        7 => Ok(FavColor::Pink),
        8 => Ok(FavColor::Purple),
        9 => Ok(FavColor::Brown),
        10 => Ok(FavColor::White),
        11 => Ok(FavColor::Black),
        _ => Err(FavColorError::ColorInvalid),
    }
}

impl TryFrom<u8> for FavColor {
    type Error = FavColorError;

    fn try_from(value: u8) -> (r: Result<Self, Self::Error>) {
        match value {
            0 => Ok(Self::Red),
            1 => Ok(Self::Orange),
            2 => Ok(Self::Yellow),
            3 => Ok(Self::LimeGreen),
            4 => Ok(Self::ForestGreen),
            5 => Ok(Self::RoyalBlue),
            6 => Ok(Self::SkyBlue),
            7 => Ok(Self::Pink),
            8 => Ok(Self::Purple),
            9 => Ok(Self::Brown),
            10 => Ok(Self::White),
            11 => Ok(Self::Black),
            _ => Err(FavColorError::ColorInvalid),
        }
    }
}

impl TryFromSpecImpl<u8> for FavColor {
    open spec fn obeys_try_from_spec() -> bool {
        true
    }

    open spec fn try_from_spec(value: u8) -> Result<Self, Self::Error> {
        fav_color_of(value)
    }
}

/// The number of a color.
pub open spec fn fav_color_code(value: FavColor) -> u8 {
    match value {
        FavColor::Red => 0,
        FavColor::Orange => 1,
        FavColor::Yellow => 2,
        FavColor::LimeGreen => 3,
        FavColor::ForestGreen => 4,
        FavColor::RoyalBlue => 5,
        FavColor::SkyBlue => 6,
        FavColor::Pink => 7,
        FavColor::Purple => 8,
        FavColor::Brown => 9,
        FavColor::White => 10,
        FavColor::Black => 11,
    }
}

impl From<FavColor> for u8 {
    fn from(value: FavColor) -> (r: u8) {
        match value {
            FavColor::Red => 0,
            FavColor::Orange => 1,
            FavColor::Yellow => 2,
            FavColor::LimeGreen => 3,
            FavColor::ForestGreen => 4,
            FavColor::RoyalBlue => 5,
            FavColor::SkyBlue => 6,
            FavColor::Pink => 7,
            FavColor::Purple => 8,
            FavColor::Brown => 9,
            FavColor::White => 10,
            FavColor::Black => 11,
        }
    }
}

impl FromSpecImpl<FavColor> for u8 {
    open spec fn obeys_from_spec() -> bool {
        true
    }

    open spec fn from_spec(value: FavColor) -> u8 {
        fav_color_code(value)
    }
}

impl FavColor {
    /// Reads the color out of byte 0x01 of a Mii: four bits from bit 1 on.
    pub fn from_byte_handler(handler: ByteHandler) -> (r: Result<Self, FavColorError>)
        ensures
            r == fav_color_of(field_at(handler@, 1, 4) as u8),
    {
        proof {
            vstd::arithmetic::power2::lemma2_to64();
        }
        Self::try_from(handler.copy_bits(1, 4) as u8)
    }
}

/// Each color is read back from its own number.
pub proof fn lemma_fav_color_code_read_back(value: FavColor)
    ensures
        fav_color_of(fav_color_code(value)) == Ok::<_, FavColorError>(value),
{
}

} // verus!
