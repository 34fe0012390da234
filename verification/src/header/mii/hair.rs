//! The hair of a Mii.

use vstd::prelude::*;
use vstd::std_specs::convert::TryFromSpecImpl;
use crate::byte_handler::bit_at;
use crate::byte_handler::field_at;
use crate::byte_handler::ByteHandler;
use crate::byte_handler::ByteHandlerError;

verus! {

#[derive(Clone, Copy, Debug, PartialEq, Eq, Structural)]
pub struct Hair {
    pub hair_type: HairType,
    pub hair_color: HairColor,
    pub is_flipped: bool,
}

#[derive(Clone, Copy, Debug, PartialEq, Eq, Structural)]
pub enum HairError {
    TypeInvalid,
    ColorInvalid,
    ByteHandlerError(ByteHandlerError),
}

/// The hair that bytes 0x22 and 0x23 of a Mii hold, read as one word: seven
/// bits of the type, three bits of the color and one bit that tells whether
/// the parting is turned over. The type is looked at first.
pub open spec fn hair_of(word: u32) -> Result<Hair, HairError> {
    match hair_type_of(field_at(word, 9, 7) as u8) {
        Err(_) => Err(HairError::TypeInvalid),
        Ok(hair_type) => match hair_color_of(field_at(word, 6, 3) as u8) {
            Err(_) => Err(HairError::ColorInvalid),
            Ok(hair_color) => Ok(Hair { hair_type, hair_color, is_flipped: bit_at(word, 5) }),
        },
    }
}

impl Hair {
    pub fn hair_type(&self) -> (r: HairType)
        ensures
            r == self.hair_type,
    {
        self.hair_type
    }

    pub fn hair_color(&self) -> (r: HairColor)
        ensures
            r == self.hair_color,
    {
        self.hair_color
    }

    pub fn is_flipped(&self) -> (r: bool)
        ensures
            r == self.is_flipped,
    {
        self.is_flipped
    }

    pub fn from_byte_handler(handler: ByteHandler) -> (r: Result<Self, HairError>)
        ensures
            r == hair_of(handler@),
    {
        proof {
            vstd::arithmetic::power2::lemma2_to64();
        }
        let hair_type = match HairType::try_from(handler.copy_bits(9, 7) as u8) {
            Ok(hair_type) => hair_type,
            Err(_) => {
                return Err(HairError::TypeInvalid);
            },
        };
        let hair_color = match HairColor::try_from(handler.copy_bits(6, 3) as u8) {
            Ok(hair_color) => hair_color,
            Err(_) => {
                return Err(HairError::ColorInvalid);
            },
        };
        Ok(Self { is_flipped: handler.read_bool(5), hair_type, hair_color })
    }
}

#[derive(Clone, Copy, Debug, PartialEq, Eq, Structural)]
pub enum HairColor {
    Black,
    Chocolate,
    PhilippineBrown,
    Walnut,
    Gray,
    Pineapple,
    Grizzly,
    Blond,
}

/// The color of hair that has the number `value`.
pub open spec fn hair_color_of(value: u8) -> Result<HairColor, ()> {
    match value {
        0x00 => Ok(HairColor::Black),
        0x01 => Ok(HairColor::Chocolate),
        0x02 => Ok(HairColor::PhilippineBrown),
        0x03 => Ok(HairColor::Walnut),
        0x04 => Ok(HairColor::Gray),
        0x05 => Ok(HairColor::Pineapple),
        0x06 => Ok(HairColor::Grizzly),
        _ => Err(()),
    }
}

impl TryFrom<u8> for HairColor {
    type Error = ();

    fn try_from(value: u8) -> (r: Result<Self, Self::Error>) {
        match value {
            0x00 => Ok(Self::Black),
            0x01 => Ok(Self::Chocolate),
            0x02 => Ok(Self::PhilippineBrown),
            0x03 => Ok(Self::Walnut),
            0x04 => Ok(Self::Gray),
            0x05 => Ok(Self::Pineapple),
            0x06 => Ok(Self::Grizzly),
            _ => Err(()),
        }
    }
}

impl TryFromSpecImpl<u8> for HairColor {
    open spec fn obeys_try_from_spec() -> bool {
        true
    }

    open spec fn try_from_spec(value: u8) -> Result<Self, Self::Error> {
        hair_color_of(value)
    }
}

#[derive(Clone, Copy, Debug, PartialEq, Eq, Structural)]
pub enum HairType {
    NormalLong,
    NormalMedium,
    FrontLock,
    PartingExtraLong,
    MilitaryParting,
    PartingExtraLongCurved,
    ShortUnknown3,
    PeaksSquared,
    ShortUnknown5,
    Peaks,
    PeaksRounded,
    PeaksLongBottom,
    NormalLongBottom,
    NormalShort,
    NormalExtraLong,
    PartingLong,
    PartingMiddleLong,
    PartingSquared,
    LongRounded,
    PartingLongBottom,
    PartingShort,
    PartingFrontPeaks,
    NormalUnknown1,
    PeaksSide,
    PartingPeaks,
    PeaksTop,
    DreadLocks,
    Short,
    ShortUnknown4,
    Afro,
    Military,
    NoneTop,
    ShortUnknown6,
    NoHair,
    Caps,
    Beanie,
    LongUnknown1,
    LongUnknown40,
    LongUnknown38,
    LongUnknown60,
    LongUnknown16,
    LongUnknown36,
    LongUnknown56,
    PartingFrontTwoLongBackPonyTails,
    LongUnknown31,
    LongUnknown20,
    LongUnknown15,
    LongUnknown52,
    LongUnknown7,
    LongUnknown23,
    PartingExtraLongRounded,
    LongUnknown3,
    LongUnknown11,
    LongUnknown12,
    LongUnknown29,
    LongUnknown27,
    LongUnknown17,
    LongUnknown39,
    LongUnknown24,
    LongUnknown25,
    LongUnknown61,
    LongUnknown2,
    StrandsTwoShortSidedPonyTails,
    TwoFrontStrandsLongBackPonyTail,
    LongUnknown65,
    LongUnknown63,
    ShortFrontTwoBackPonyTails,
    LongUnknown43,
    LongUnknown47,
    LongUnknown44,
    LongUnknown53,
    LongUnknown51,
}

/// The kind of hair that has the number `value`.
pub open spec fn hair_type_of(value: u8) -> Result<HairType, ()> {
    match value {
        0x21 => Ok(HairType::NormalLong),
        0x28 => Ok(HairType::NormalMedium),
        0x33 => Ok(HairType::FrontLock),
        0x2c => Ok(HairType::PartingExtraLong),
        0x27 => Ok(HairType::MilitaryParting),
        0x46 => Ok(HairType::PartingExtraLongCurved),
        0x2d => Ok(HairType::ShortUnknown3),
        0x31 => Ok(HairType::PeaksSquared),
        0x3b => Ok(HairType::ShortUnknown5),
        0x38 => Ok(HairType::Peaks),
        0x44 => Ok(HairType::PeaksRounded),
        0x1f => Ok(HairType::PeaksLongBottom),
        0x20 => Ok(HairType::NormalLongBottom),
        0x2f => Ok(HairType::NormalShort),
        0x25 => Ok(HairType::NormalExtraLong),
        0x30 => Ok(HairType::PartingLong),
        0x42 => Ok(HairType::PartingMiddleLong),
        0x34 => Ok(HairType::PartingSquared),
        0x3a => Ok(HairType::LongRounded),
        0x32 => Ok(HairType::PartingLongBottom),
        0x37 => Ok(HairType::PartingShort),
        0x40 => Ok(HairType::PartingFrontPeaks),
        0x3c => Ok(HairType::NormalUnknown1),
        0x3e => Ok(HairType::PeaksSide),
        0x2b => Ok(HairType::PartingPeaks),
        0x26 => Ok(HairType::PeaksTop),
        0x2a => Ok(HairType::DreadLocks),
        0x17 => Ok(HairType::Short),
        0x43 => Ok(HairType::ShortUnknown4),
        0x36 => Ok(HairType::Afro),
        0x24 => Ok(HairType::Military),
        0x29 => Ok(HairType::NoneTop),
        0x41 => Ok(HairType::ShortUnknown6),
        0x1e => Ok(HairType::NoHair),
        0x39 => Ok(HairType::Caps),
        0x22 => Ok(HairType::Beanie),
        0x0c => Ok(HairType::LongUnknown1),
        0x0d => Ok(HairType::LongUnknown40),
        0x45 => Ok(HairType::LongUnknown38),
        0x1a => Ok(HairType::LongUnknown60),
        0x04 => Ok(HairType::LongUnknown16),
        0x19 => Ok(HairType::LongUnknown36),
        0x01 => Ok(HairType::LongUnknown56),
        0x13 => Ok(HairType::PartingFrontTwoLongBackPonyTails),
        0x05 => Ok(HairType::LongUnknown31),
        0x08 => Ok(HairType::LongUnknown20),
        0x1b => Ok(HairType::LongUnknown15),
        0x07 => Ok(HairType::LongUnknown52),
        0x0e => Ok(HairType::LongUnknown7),
        0x03 => Ok(HairType::LongUnknown23),
        0x16 => Ok(HairType::PartingExtraLongRounded),
        0x0a => Ok(HairType::LongUnknown3),
        0x06 => Ok(HairType::LongUnknown11),
        0x14 => Ok(HairType::LongUnknown12),
        0x0b => Ok(HairType::LongUnknown29),
        0x3f => Ok(HairType::LongUnknown27),
        0x11 => Ok(HairType::LongUnknown17),
        0x23 => Ok(HairType::LongUnknown39),
        0x15 => Ok(HairType::LongUnknown24),
        0x00 => Ok(HairType::LongUnknown25),
        0x3d => Ok(HairType::LongUnknown61),
        0x10 => Ok(HairType::LongUnknown2),
        0x2e => Ok(HairType::StrandsTwoShortSidedPonyTails),
        0x09 => Ok(HairType::TwoFrontStrandsLongBackPonyTail),
        0x12 => Ok(HairType::LongUnknown65),
        0x02 => Ok(HairType::LongUnknown63),
        0x1c => Ok(HairType::ShortFrontTwoBackPonyTails),
        0x35 => Ok(HairType::LongUnknown43),
        0x47 => Ok(HairType::LongUnknown47),
        0x18 => Ok(HairType::LongUnknown44),
        0x0f => Ok(HairType::LongUnknown53),
        0x1d => Ok(HairType::LongUnknown51),
        _ => Err(()),
    }
}

impl TryFrom<u8> for HairType {
    type Error = ();

    fn try_from(value: u8) -> (r: Result<Self, Self::Error>) {
        match value {
            0x21 => Ok(Self::NormalLong),
            0x28 => Ok(Self::NormalMedium),
            0x33 => Ok(Self::FrontLock),
            0x2c => Ok(Self::PartingExtraLong),
            0x27 => Ok(Self::MilitaryParting),
            0x46 => Ok(Self::PartingExtraLongCurved),
            0x2d => Ok(Self::ShortUnknown3),
            0x31 => Ok(Self::PeaksSquared),
            0x3b => Ok(Self::ShortUnknown5),
            0x38 => Ok(Self::Peaks),
            0x44 => Ok(Self::PeaksRounded),
            0x1f => Ok(Self::PeaksLongBottom),
            0x20 => Ok(Self::NormalLongBottom),
            0x2f => Ok(Self::NormalShort),
            0x25 => Ok(Self::NormalExtraLong),
            0x30 => Ok(Self::PartingLong),
            0x42 => Ok(Self::PartingMiddleLong),
            0x34 => Ok(Self::PartingSquared),
            0x3a => Ok(Self::LongRounded),
            0x32 => Ok(Self::PartingLongBottom),
            0x37 => Ok(Self::PartingShort),
            0x40 => Ok(Self::PartingFrontPeaks),
            0x3c => Ok(Self::NormalUnknown1),
            0x3e => Ok(Self::PeaksSide),
            0x2b => Ok(Self::PartingPeaks),
            0x26 => Ok(Self::PeaksTop),
            0x2a => Ok(Self::DreadLocks),
            0x17 => Ok(Self::Short),
            0x43 => Ok(Self::ShortUnknown4),
            0x36 => Ok(Self::Afro),
            0x24 => Ok(Self::Military),
            0x29 => Ok(Self::NoneTop),
            0x41 => Ok(Self::ShortUnknown6),
            0x1e => Ok(Self::NoHair),
            0x39 => Ok(Self::Caps),
            0x22 => Ok(Self::Beanie),
            0x0c => Ok(Self::LongUnknown1),
            0x0d => Ok(Self::LongUnknown40),
            0x45 => Ok(Self::LongUnknown38),
            0x1a => Ok(Self::LongUnknown60),
            0x04 => Ok(Self::LongUnknown16),
            0x19 => Ok(Self::LongUnknown36),
            0x01 => Ok(Self::LongUnknown56),
            0x13 => Ok(Self::PartingFrontTwoLongBackPonyTails),
            0x05 => Ok(Self::LongUnknown31),
            0x08 => Ok(Self::LongUnknown20),
            0x1b => Ok(Self::LongUnknown15),
            0x07 => Ok(Self::LongUnknown52),
            0x0e => Ok(Self::LongUnknown7),
            0x03 => Ok(Self::LongUnknown23),
            0x16 => Ok(Self::PartingExtraLongRounded),
            0x0a => Ok(Self::LongUnknown3),
            0x06 => Ok(Self::LongUnknown11),
            0x14 => Ok(Self::LongUnknown12),
            0x0b => Ok(Self::LongUnknown29),
            0x3f => Ok(Self::LongUnknown27),
            0x11 => Ok(Self::LongUnknown17),
            0x23 => Ok(Self::LongUnknown39),
            0x15 => Ok(Self::LongUnknown24),
            0x00 => Ok(Self::LongUnknown25),
            0x3d => Ok(Self::LongUnknown61),
            0x10 => Ok(Self::LongUnknown2),
            0x2e => Ok(Self::StrandsTwoShortSidedPonyTails),
            0x09 => Ok(Self::TwoFrontStrandsLongBackPonyTail),
            0x12 => Ok(Self::LongUnknown65),
            0x02 => Ok(Self::LongUnknown63),
            0x1c => Ok(Self::ShortFrontTwoBackPonyTails),
            0x35 => Ok(Self::LongUnknown43),
            0x47 => Ok(Self::LongUnknown47),
            0x18 => Ok(Self::LongUnknown44),
            0x0f => Ok(Self::LongUnknown53),
            0x1d => Ok(Self::LongUnknown51),
            _ => Err(()),
        }
    }
}

impl TryFromSpecImpl<u8> for HairType {
    open spec fn obeys_try_from_spec() -> bool {
        true
    }

    open spec fn try_from_spec(value: u8) -> Result<Self, Self::Error> {
        hair_type_of(value)
    }
}

} // verus!
