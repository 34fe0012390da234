//! The head of a Mii: its shape, its skin and what marks its face.

use vstd::prelude::*;
use vstd::std_specs::convert::TryFromSpecImpl;
use crate::byte_handler::field_at;
use crate::byte_handler::ByteHandler;
use crate::byte_handler::ByteHandlerError;

verus! {

#[derive(Clone, Copy, Debug, PartialEq, Eq, Structural)]
pub struct Head {
    pub shape: HeadShape,
    pub skin_tone: SkinTone,
    pub face_features: FaceFeatures,
}

#[derive(Clone, Copy, Debug, PartialEq, Eq, Structural)]
pub enum HeadError {
    ShapeInvalid,
    SkinToneInvalid,
    FaceFeaturesInvalid,
    ByteHandlerError(ByteHandlerError),
}

/// The head that bytes 0x20 and 0x21 of a Mii hold, read as one word: three
/// bits of the shape, three bits of the skin and four bits of the marks of
/// the face. The shape is looked at first, then the skin, then the marks.
pub open spec fn head_of(word: u32) -> Result<Head, HeadError> {
    match head_shape_of(field_at(word, 13, 3) as u8) {
        Err(_) => Err(HeadError::ShapeInvalid),
        Ok(shape) => match skin_tone_of(field_at(word, 10, 3) as u8) {
            Err(_) => Err(HeadError::SkinToneInvalid),
            Ok(skin_tone) => match face_features_of(field_at(word, 6, 4) as u8) {
                Err(_) => Err(HeadError::FaceFeaturesInvalid),
                Ok(face_features) => Ok(Head { shape, skin_tone, face_features }),
            },
        },
    }
}

impl Head {
    pub fn shape(&self) -> (r: HeadShape)
        ensures
            r == self.shape,
    {
        self.shape
    }

    pub fn skin_tone(&self) -> (r: SkinTone)
        ensures
            r == self.skin_tone,
    {
        self.skin_tone
    }

    pub fn face_features(&self) -> (r: FaceFeatures)
        ensures
            r == self.face_features,
    {
        self.face_features
    }

    pub fn from_byte_handler(handler: ByteHandler) -> (r: Result<Self, HeadError>)
        ensures
            r == head_of(handler@),
    {
        proof {
            vstd::arithmetic::power2::lemma2_to64();
        }
        let shape = match HeadShape::try_from(handler.copy_bits(13, 3) as u8) {
            Ok(shape) => shape,
            Err(_) => {
                return Err(HeadError::ShapeInvalid);
            },
        };
        let skin_tone = match SkinTone::try_from(handler.copy_bits(10, 3) as u8) {
            Ok(skin_tone) => skin_tone,
            Err(_) => {
                return Err(HeadError::SkinToneInvalid);
            },
        };
        let face_features = match FaceFeatures::try_from(handler.copy_bits(6, 4) as u8) {
            Ok(face_features) => face_features,
            Err(_) => {
                return Err(HeadError::FaceFeaturesInvalid);
            },
        };
        Ok(Head { shape, skin_tone, face_features })
    }
}

#[derive(Clone, Copy, Debug, PartialEq, Eq, Structural)]
pub enum HeadShape {
    Sharp,
    Rounded,
    SharpRoundedSmall,
    Large,
    SharpSmall,
    Flat,
    Angular,
    FlatRounded,
}

/// The shape of head that has the number `value`.
pub open spec fn head_shape_of(value: u8) -> Result<HeadShape, ()> {
    match value {
        0x00 => Ok(HeadShape::Sharp),
        0x01 => Ok(HeadShape::Rounded),
        0x02 => Ok(HeadShape::SharpRoundedSmall),
        0x03 => Ok(HeadShape::Large),
        0x04 => Ok(HeadShape::SharpSmall),
        0x05 => Ok(HeadShape::Flat),
        0x06 => Ok(HeadShape::Angular),
        0x07 => Ok(HeadShape::FlatRounded),
        _ => Err(()),
    }
}

impl TryFrom<u8> for HeadShape {
    type Error = ();

    fn try_from(value: u8) -> (r: Result<Self, Self::Error>) {
        match value {
            0x00 => Ok(Self::Sharp),
            0x01 => Ok(Self::Rounded),
            0x02 => Ok(Self::SharpRoundedSmall),
            0x03 => Ok(Self::Large),
            0x04 => Ok(Self::SharpSmall),
            0x05 => Ok(Self::Flat),
            0x06 => Ok(Self::Angular),
            0x07 => Ok(Self::FlatRounded),
            _ => Err(()),
        }
    }
}

impl TryFromSpecImpl<u8> for HeadShape {
    open spec fn obeys_try_from_spec() -> bool {
        true
    }

    open spec fn try_from_spec(value: u8) -> Result<Self, Self::Error> {
        head_shape_of(value)
    }
}

#[derive(Clone, Copy, Debug, PartialEq, Eq, Structural)]
pub enum SkinTone {
    Beige,
    Natural,
    WarmIvory,
    Ivory,
    Honey,
    Chestnut,
}

/// The skin that has the number `value`.
pub open spec fn skin_tone_of(value: u8) -> Result<SkinTone, ()> {
    match value {
        0x00 => Ok(SkinTone::Beige),
        0x01 => Ok(SkinTone::Natural),
        0x02 => Ok(SkinTone::WarmIvory),
        0x03 => Ok(SkinTone::Ivory),
        0x04 => Ok(SkinTone::Honey),
        0x05 => Ok(SkinTone::Chestnut),
        _ => Err(()),
    }
}

impl TryFrom<u8> for SkinTone {
    type Error = ();

    fn try_from(value: u8) -> (r: Result<Self, Self::Error>) {
        match value {
            0x00 => Ok(Self::Beige),
            0x01 => Ok(Self::Natural),
            0x02 => Ok(Self::WarmIvory),
            0x03 => Ok(Self::Ivory),
            0x04 => Ok(Self::Honey),
            0x05 => Ok(Self::Chestnut),
            _ => Err(()),
        }
    }
}

impl TryFromSpecImpl<u8> for SkinTone {
    open spec fn obeys_try_from_spec() -> bool {
        true
    }

    open spec fn try_from_spec(value: u8) -> Result<Self, Self::Error> {
        skin_tone_of(value)
    }
}

#[derive(Clone, Copy, Debug, PartialEq, Eq, Structural)]
pub enum FaceFeatures {
    NoFeatures,
    CheekPorcelain,
    CheekPorcelainEyeShadowBlue,
    Freckles,
    UnderTheEyes,
    FacialPain,
    Cheeks,
    Chin,
    BrowDroop,
    LionsManeBeard,
    MouthFrown,
    FoldsCrowsFrown,
}

/// The marks of the face that have the number `value`.
pub open spec fn face_features_of(value: u8) -> Result<FaceFeatures, ()> {
    match value {
        0x00 => Ok(FaceFeatures::NoFeatures),
        0x01 => Ok(FaceFeatures::CheekPorcelain),
        0x02 => Ok(FaceFeatures::CheekPorcelainEyeShadowBlue),
        0x03 => Ok(FaceFeatures::Freckles),
        0x04 => Ok(FaceFeatures::UnderTheEyes),
        0x05 => Ok(FaceFeatures::FacialPain),
        0x06 => Ok(FaceFeatures::Cheeks),
        0x07 => Ok(FaceFeatures::Chin),
        0x08 => Ok(FaceFeatures::BrowDroop),
        0x09 => Ok(FaceFeatures::LionsManeBeard),
        0x0A => Ok(FaceFeatures::MouthFrown),
        0x0B => Ok(FaceFeatures::FoldsCrowsFrown),
        _ => Err(()),
    }
}

impl TryFrom<u8> for FaceFeatures {
    type Error = ();

    fn try_from(value: u8) -> (r: Result<Self, Self::Error>) {
        match value {
            0x00 => Ok(Self::NoFeatures),
            0x01 => Ok(Self::CheekPorcelain),
            0x02 => Ok(Self::CheekPorcelainEyeShadowBlue),
            0x03 => Ok(Self::Freckles),
            0x04 => Ok(Self::UnderTheEyes),
            0x05 => Ok(Self::FacialPain),
            0x06 => Ok(Self::Cheeks),
            0x07 => Ok(Self::Chin),
            0x08 => Ok(Self::BrowDroop),
            0x09 => Ok(Self::LionsManeBeard),
            0x0A => Ok(Self::MouthFrown),
            0x0B => Ok(Self::FoldsCrowsFrown),
            _ => Err(()),
        }
    }
}

impl TryFromSpecImpl<u8> for FaceFeatures {
    open spec fn obeys_try_from_spec() -> bool {
        true
    }

    open spec fn try_from_spec(value: u8) -> Result<Self, Self::Error> {
        face_features_of(value)
    }
}

} // verus!
