//! The slot of a track: the place in the game's files that a track is
//! loaded into.

use vstd::prelude::*;
use vstd::std_specs::convert::FromSpecImpl;
use vstd::std_specs::convert::TryFromSpecImpl;
use bitreader::BitReader;
use crate::bit_reader::bits_value;
use crate::bit_reader::reader_bytes;
use crate::bit_reader::reader_limit;
use crate::bit_reader::reader_position;
use crate::byte_handler::field_at;
use crate::byte_handler::ByteHandler;

verus! {

#[derive(Clone, Copy, Debug, PartialEq, Eq, Structural)]
pub enum SlotIdError {
    NonExistentSlotId,
}

#[derive(Clone, Copy, Debug, PartialEq, Eq, Structural)]
pub enum SlotId {
    // Normal Tracks
    LuigiCircuit,
    MooMooMeadows,
    MushroomGorge,
    ToadsFactory,
    MarioCircuit,
    CoconutMall,
    DKSnowboardCross,
    WariosGoldMine,
    DaisyCircuit,
    KoopaCape,
    MapleTreeway,
    GrumbleVolcano,
    DryDryRuins,
    MoonviewHighway,
    BowsersCastle,
    RainbowRoad,
    GCNPeachBeach,
    DSYoshiFalls,
    SNESGhostValley2,
    N64MarioRaceway,
    N64SherbetLand,
    GBAShyGuyBeach,
    DSDelfinoSquare,
    GCNWaluigiStadium,
    DSDesertHills,
    GBABowserCastle3,
    N64DKJungleParkway,
    GCNMarioCircuit,
    SNESMarioCircuit3,
    DSPeachGardens,
    GCNDKMountain,
    N64BowsersCastle,
    // Battle Arenas
    BlockPlaza,
    DelfinoPier,
    FunkyStadium,
    ChainChompWheel,
    ThwompDesert,
    SNESBattleCourse4,
    GBABattleCourse3,
    N64Skscraper,
    GCNCookieLand,
    DSTwilightHouse,
    // Other Slots
    GalaxyColosseum, // Only technically possible one?
    WinningScene,
    LosingScene,
    Credits,
}

/// The number of a slot.
pub open spec fn slot_id_code(value: SlotId) -> u8 {
    match value {
        SlotId::LuigiCircuit => 0x08,
        SlotId::MooMooMeadows => 0x01,
        SlotId::MushroomGorge => 0x02,
        SlotId::ToadsFactory => 0x04,
        SlotId::MarioCircuit => 0x00,
        SlotId::CoconutMall => 0x05,
        SlotId::DKSnowboardCross => 0x06,
        SlotId::WariosGoldMine => 0x07,
        SlotId::DaisyCircuit => 0x09,
        SlotId::KoopaCape => 0x0F,
        SlotId::MapleTreeway => 0x0B,
        SlotId::GrumbleVolcano => 0x03,
        SlotId::DryDryRuins => 0x0E,
        SlotId::MoonviewHighway => 0x0A,
        SlotId::BowsersCastle => 0x0C,
        SlotId::RainbowRoad => 0x0D,
        SlotId::GCNPeachBeach => 0x10,
        SlotId::DSYoshiFalls => 0x14,
        SlotId::SNESGhostValley2 => 0x19,
        SlotId::N64MarioRaceway => 0x1A,
        SlotId::N64SherbetLand => 0x1B,
        SlotId::GBAShyGuyBeach => 0x1F,
        SlotId::DSDelfinoSquare => 0x17,
        SlotId::GCNWaluigiStadium => 0x12,
        SlotId::DSDesertHills => 0x15,
        SlotId::GBABowserCastle3 => 0x1E,
        SlotId::N64DKJungleParkway => 0x1D,
        SlotId::GCNMarioCircuit => 0x11,
        SlotId::SNESMarioCircuit3 => 0x18,
        SlotId::DSPeachGardens => 0x16,
        SlotId::GCNDKMountain => 0x13,
        SlotId::N64BowsersCastle => 0x1C,
        SlotId::BlockPlaza => 0x21,
        SlotId::DelfinoPier => 0x20,
        SlotId::FunkyStadium => 0x23,
        SlotId::ChainChompWheel => 0x22,
        SlotId::ThwompDesert => 0x24,
        SlotId::SNESBattleCourse4 => 0x27,
        SlotId::GBABattleCourse3 => 0x28,
        SlotId::N64Skscraper => 0x29,
        SlotId::GCNCookieLand => 0x25,
        SlotId::DSTwilightHouse => 0x26,
        SlotId::GalaxyColosseum => 0xC9,
        SlotId::WinningScene => 0x37,
        SlotId::LosingScene => 0x38,
        SlotId::Credits => 0x3A,
    }
}

impl From<SlotId> for u8 {
    fn from(value: SlotId) -> (r: u8) {
        match value {
            SlotId::LuigiCircuit => 0x08,
            SlotId::MooMooMeadows => 0x01,
            SlotId::MushroomGorge => 0x02,
            SlotId::ToadsFactory => 0x04,
            SlotId::MarioCircuit => 0x00,
            SlotId::CoconutMall => 0x05,
            SlotId::DKSnowboardCross => 0x06,
            SlotId::WariosGoldMine => 0x07,
            SlotId::DaisyCircuit => 0x09,
            SlotId::KoopaCape => 0x0F,
            SlotId::MapleTreeway => 0x0B,
            SlotId::GrumbleVolcano => 0x03,
            SlotId::DryDryRuins => 0x0E,
            SlotId::MoonviewHighway => 0x0A,
            SlotId::BowsersCastle => 0x0C,
            SlotId::RainbowRoad => 0x0D,
            SlotId::GCNPeachBeach => 0x10,
            SlotId::DSYoshiFalls => 0x14,
            SlotId::SNESGhostValley2 => 0x19,
            SlotId::N64MarioRaceway => 0x1A,
            SlotId::N64SherbetLand => 0x1B,
            SlotId::GBAShyGuyBeach => 0x1F,
            SlotId::DSDelfinoSquare => 0x17,
            SlotId::GCNWaluigiStadium => 0x12,
            SlotId::DSDesertHills => 0x15,
            SlotId::GBABowserCastle3 => 0x1E,
            SlotId::N64DKJungleParkway => 0x1D,
            SlotId::GCNMarioCircuit => 0x11,
            SlotId::SNESMarioCircuit3 => 0x18,
            SlotId::DSPeachGardens => 0x16,
            SlotId::GCNDKMountain => 0x13,
            SlotId::N64BowsersCastle => 0x1C,
            SlotId::BlockPlaza => 0x21,
            SlotId::DelfinoPier => 0x20,
            SlotId::FunkyStadium => 0x23,
            SlotId::ChainChompWheel => 0x22,
            SlotId::ThwompDesert => 0x24,
            SlotId::SNESBattleCourse4 => 0x27,
            SlotId::GBABattleCourse3 => 0x28,
            SlotId::N64Skscraper => 0x29,
            SlotId::GCNCookieLand => 0x25,
            SlotId::DSTwilightHouse => 0x26,
            SlotId::GalaxyColosseum => 0xC9,
            SlotId::WinningScene => 0x37,
            SlotId::LosingScene => 0x38,
            SlotId::Credits => 0x3A,
        }
    }
}

impl FromSpecImpl<SlotId> for u8 {
    open spec fn obeys_from_spec() -> bool {
        true
    }

    open spec fn from_spec(value: SlotId) -> u8 {
        slot_id_code(value)
    }
}

/// The slot that has the number `value`.
pub open spec fn slot_id_of(value: u8) -> Result<SlotId, SlotIdError> {
    match value {
        0x08 => Ok(SlotId::LuigiCircuit),
        0x01 => Ok(SlotId::MooMooMeadows),
        0x02 => Ok(SlotId::MushroomGorge),
        0x04 => Ok(SlotId::ToadsFactory),
        0x00 => Ok(SlotId::MarioCircuit),
        0x05 => Ok(SlotId::CoconutMall),
        0x06 => Ok(SlotId::DKSnowboardCross),
        0x07 => Ok(SlotId::WariosGoldMine),
        0x09 => Ok(SlotId::DaisyCircuit),
        0x0F => Ok(SlotId::KoopaCape),
        0x0B => Ok(SlotId::MapleTreeway),
        0x03 => Ok(SlotId::GrumbleVolcano),
        0x0E => Ok(SlotId::DryDryRuins),
        0x0A => Ok(SlotId::MoonviewHighway),
        0x0C => Ok(SlotId::BowsersCastle),
        0x0D => Ok(SlotId::RainbowRoad),
        0x10 => Ok(SlotId::GCNPeachBeach),
        0x14 => Ok(SlotId::DSYoshiFalls),
        0x19 => Ok(SlotId::SNESGhostValley2),
        0x1A => Ok(SlotId::N64MarioRaceway),
        0x1B => Ok(SlotId::N64SherbetLand),
        0x1F => Ok(SlotId::GBAShyGuyBeach),
        0x17 => Ok(SlotId::DSDelfinoSquare),
        0x12 => Ok(SlotId::GCNWaluigiStadium),
        0x15 => Ok(SlotId::DSDesertHills),
        0x1E => Ok(SlotId::GBABowserCastle3),
        0x1D => Ok(SlotId::N64DKJungleParkway),
        0x11 => Ok(SlotId::GCNMarioCircuit),
        0x18 => Ok(SlotId::SNESMarioCircuit3),
        0x16 => Ok(SlotId::DSPeachGardens),
        0x13 => Ok(SlotId::GCNDKMountain),
        0x1C => Ok(SlotId::N64BowsersCastle),
        0x21 => Ok(SlotId::BlockPlaza),
        0x20 => Ok(SlotId::DelfinoPier),
        0x23 => Ok(SlotId::FunkyStadium),
        0x22 => Ok(SlotId::ChainChompWheel),
        0x24 => Ok(SlotId::ThwompDesert),
        0x27 => Ok(SlotId::SNESBattleCourse4),
        0x28 => Ok(SlotId::GBABattleCourse3),
        0x29 => Ok(SlotId::N64Skscraper),
        0x25 => Ok(SlotId::GCNCookieLand),
        0x26 => Ok(SlotId::DSTwilightHouse),
        0xC9 => Ok(SlotId::GalaxyColosseum),
        0x37 => Ok(SlotId::WinningScene),
        0x38 => Ok(SlotId::LosingScene),
        0x3A => Ok(SlotId::Credits),
        _ => Err(SlotIdError::NonExistentSlotId),
    }
}

impl TryFrom<u8> for SlotId {
    type Error = SlotIdError;

    fn try_from(value: u8) -> (r: Result<Self, Self::Error>) {
        match value {
            0x08 => Ok(Self::LuigiCircuit),
            0x01 => Ok(Self::MooMooMeadows),
            0x02 => Ok(Self::MushroomGorge),
            0x04 => Ok(Self::ToadsFactory),
            0x00 => Ok(Self::MarioCircuit),
            0x05 => Ok(Self::CoconutMall),
            0x06 => Ok(Self::DKSnowboardCross),
            0x07 => Ok(Self::WariosGoldMine),
            0x09 => Ok(Self::DaisyCircuit),
            0x0F => Ok(Self::KoopaCape),
            0x0B => Ok(Self::MapleTreeway),
            0x03 => Ok(Self::GrumbleVolcano),
            0x0E => Ok(Self::DryDryRuins),
            0x0A => Ok(Self::MoonviewHighway),
            0x0C => Ok(Self::BowsersCastle),
            0x0D => Ok(Self::RainbowRoad),
            0x10 => Ok(Self::GCNPeachBeach),
            0x14 => Ok(Self::DSYoshiFalls),
            0x19 => Ok(Self::SNESGhostValley2),
            0x1A => Ok(Self::N64MarioRaceway),
            0x1B => Ok(Self::N64SherbetLand),
            0x1F => Ok(Self::GBAShyGuyBeach),
            0x17 => Ok(Self::DSDelfinoSquare),
            0x12 => Ok(Self::GCNWaluigiStadium),
            0x15 => Ok(Self::DSDesertHills),
            0x1E => Ok(Self::GBABowserCastle3),
            0x1D => Ok(Self::N64DKJungleParkway),
            0x11 => Ok(Self::GCNMarioCircuit),
            0x18 => Ok(Self::SNESMarioCircuit3),
            0x16 => Ok(Self::DSPeachGardens),
            0x13 => Ok(Self::GCNDKMountain),
            0x1C => Ok(Self::N64BowsersCastle),
            0x21 => Ok(Self::BlockPlaza),
            0x20 => Ok(Self::DelfinoPier),
            0x23 => Ok(Self::FunkyStadium),
            0x22 => Ok(Self::ChainChompWheel),
            0x24 => Ok(Self::ThwompDesert),
            0x27 => Ok(Self::SNESBattleCourse4),
            0x28 => Ok(Self::GBABattleCourse3),
            0x29 => Ok(Self::N64Skscraper),
            0x25 => Ok(Self::GCNCookieLand),
            0x26 => Ok(Self::DSTwilightHouse),
            0xC9 => Ok(Self::GalaxyColosseum),
            0x37 => Ok(Self::WinningScene),
            0x38 => Ok(Self::LosingScene),
            0x3A => Ok(Self::Credits),
            _ => Err(SlotIdError::NonExistentSlotId),
        }
    }
}

impl TryFromSpecImpl<u8> for SlotId {
    open spec fn obeys_try_from_spec() -> bool {
        true
    }

    open spec fn try_from_spec(value: u8) -> Result<Self, Self::Error> {
        slot_id_of(value)
    }
}

impl SlotId {
    /// Reads the slot out of byte 0x07 of the header: its upper six bits.
    pub fn from_byte_handler(handler: ByteHandler) -> (r: Result<Self, SlotIdError>)
        ensures
            r == slot_id_of(field_at(handler@, 2, 6) as u8),
    {
        proof {
            vstd::arithmetic::power2::lemma2_to64();
        }
        SlotId::try_from(handler.copy_bits(2, 6) as u8)
    }

    /// Reads the slot out of the next six bits of a reader, which must have
    /// them.
    pub fn from_reader(reader: &mut BitReader<'_>) -> (r: Result<Self, SlotIdError>)
        requires
            reader_position(*old(reader)) + 6 <= reader_limit(*old(reader)),
        ensures
            r == slot_id_of(
                bits_value(
                    reader_bytes(*old(reader)),
                    reader_position(*old(reader)),
                    6,
                ) as u8,
            ),
            reader_bytes(*final(reader)) == reader_bytes(*old(reader)),
            reader_limit(*final(reader)) == reader_limit(*old(reader)),
            reader_position(*final(reader)) == reader_position(*old(reader)) + 6,
    {
        match reader.read_u8(6) {
            Ok(value) => SlotId::try_from(value),
            Err(_) => {
                // not reached: the six bits are there
                assert(false);
                Err(SlotIdError::NonExistentSlotId)
            },
        }
    }
}

/// Each slot is read back from its own number.
pub proof fn lemma_slot_id_code_read_back(value: SlotId)
    ensures
        slot_id_of(slot_id_code(value)) == Ok::<_, SlotIdError>(value),
{
}

} // verus!
