//! The kind of a ghost: whose record it is, and how it came to the console.

use vstd::prelude::*;
use vstd::std_specs::convert::FromSpecImpl;
use vstd::std_specs::convert::TryFromSpecImpl;
use crate::byte_handler::field_at;
use crate::byte_handler::ByteHandler;

verus! {

#[derive(Clone, Copy, Debug, PartialEq, Eq, Structural)]
pub enum GhostTypeError {
    NonexistentGhostType,
}

#[derive(Clone, Copy, Debug, PartialEq, Eq, Structural)]
pub enum GhostType {
    PlayerBest,
    WorldRecord,
    ContinentalRecord,
    Rival,
    Special,
    GhostRace,
    Friend,
    NormalStaff,
    ExpertStaff,
}

/// The kind of ghost that the code `value` stands for. The ghosts of the 30
/// friends have a code each, from 0x07 to 0x24.
pub open spec fn ghost_type_of(value: u8) -> Result<GhostType, GhostTypeError> {
    if value == 0x01 {
        Ok(GhostType::PlayerBest)
    } else if value == 0x02 {
        Ok(GhostType::WorldRecord)
    } else if value == 0x03 {
        Ok(GhostType::ContinentalRecord)
    } else if value == 0x04 {
        Ok(GhostType::Rival)
    } else if value == 0x05 {
        Ok(GhostType::Special)
    } else if value == 0x06 {
        Ok(GhostType::GhostRace)
    } else if 0x07 <= value <= 0x24 {
        Ok(GhostType::Friend)
    } else if value == 0x25 {
        Ok(GhostType::NormalStaff)
    } else if value == 0x26 {
        Ok(GhostType::ExpertStaff)
    } else {
        Err(GhostTypeError::NonexistentGhostType)
    }
}

/// The code that stands for a kind of ghost; for a friend, the code of the
/// last one.
pub open spec fn ghost_type_code(value: GhostType) -> u8 {
    match value {
        GhostType::PlayerBest => 0x01,
        GhostType::WorldRecord => 0x02,
        GhostType::ContinentalRecord => 0x03,
        GhostType::Rival => 0x04,
        GhostType::Special => 0x05,
        GhostType::GhostRace => 0x06,
        GhostType::Friend => 0x24,
        GhostType::NormalStaff => 0x25,
        GhostType::ExpertStaff => 0x26,
    }
}

impl TryFrom<u8> for GhostType {
    type Error = GhostTypeError;

    fn try_from(value: u8) -> (r: Result<Self, Self::Error>) {
        match value {
            0x01 => Ok(Self::PlayerBest),
            0x02 => Ok(Self::WorldRecord),
            0x03 => Ok(Self::ContinentalRecord),
            0x04 => Ok(Self::Rival),
            0x05 => Ok(Self::Special),
            0x06 => Ok(Self::GhostRace),
            0x07..=0x24 => Ok(Self::Friend),
            0x25 => Ok(Self::NormalStaff),
            0x26 => Ok(Self::ExpertStaff),
            _ => Err(GhostTypeError::NonexistentGhostType),
        }
    }
}

impl TryFromSpecImpl<u8> for GhostType {
    open spec fn obeys_try_from_spec() -> bool {
        true
    }

    open spec fn try_from_spec(value: u8) -> Result<Self, Self::Error> {
        ghost_type_of(value)
    }
}

impl From<GhostType> for u8 {
    fn from(value: GhostType) -> (r: u8) {
        match value {
            GhostType::PlayerBest => 0x01,
            GhostType::WorldRecord => 0x02,
            GhostType::ContinentalRecord => 0x03,
            GhostType::Rival => 0x04,
            GhostType::Special => 0x05,
            GhostType::GhostRace => 0x06,
            GhostType::Friend => 0x24,
            GhostType::NormalStaff => 0x25,
            GhostType::ExpertStaff => 0x26,
        }
    }
}

impl FromSpecImpl<GhostType> for u8 {
    open spec fn obeys_from_spec() -> bool {
        true
    }

    open spec fn from_spec(value: GhostType) -> u8 {
        ghost_type_code(value)
    }
}

impl GhostType {
    /// Reads the kind of ghost out of bytes 0x0C and 0x0D of the header: the
    /// seven bits from the last bit of the first byte on.
    pub fn from_byte_handler(handler: ByteHandler) -> (r: Result<Self, GhostTypeError>)
        ensures
            r == ghost_type_of(field_at(handler@, 2, 7) as u8),
    {
        proof {
            vstd::arithmetic::power2::lemma2_to64();
        }
        GhostType::try_from(handler.copy_bits(2, 7) as u8)
    }
}

/// Each kind of ghost is read back from its own code.
pub proof fn lemma_ghost_type_code_read_back(value: GhostType)
    ensures
        ghost_type_of(ghost_type_code(value)) == Ok::<_, GhostTypeError>(value),
{
}

} // verus!
