//! The character and the vehicle of a ghost.
//!
//! The game lets a character drive the vehicles of its own weight class
//! only, so a combo of two that differ in weight is none.

use vstd::prelude::*;
use vstd::std_specs::convert::FromSpecImpl;
use vstd::std_specs::convert::TryFromSpecImpl;
use bitreader::BitReader;
use bitreader::BitReaderError;
use crate::bit_reader::bits_value;
use crate::bit_reader::reader_bytes;
use crate::bit_reader::reader_limit;
use crate::bit_reader::reader_position;
use crate::byte_handler::field_at;
use crate::byte_handler::ByteHandler;

verus! {

#[derive(Clone, Copy, Debug, PartialEq, Eq)]
pub struct Combo {
    character: Character,
    vehicle: Vehicle,
}

#[derive(Clone, Copy, Debug, PartialEq)]
pub enum ComboError {
    IncongruentWeightClasses,
    BitReaderError(BitReaderError),
    InvalidCharacterId,
    InvalidVehicleId,
}

/// Why the numbers of a vehicle and of a character make no combo, if they
/// make none. The vehicle is looked at first, then the character, then
/// their weights.
pub open spec fn combo_fault(vehicle: u8, character: u8) -> Option<ComboError> {
    if vehicle_of(vehicle) is Err {
        Some(ComboError::InvalidVehicleId)
    } else if character_of(character) is Err {
        Some(ComboError::InvalidCharacterId)
    } else if character_weight(character_of(character)->Ok_0) != vehicle_weight(
        vehicle_of(vehicle)->Ok_0,
    ) {
        Some(ComboError::IncongruentWeightClasses)
    } else {
        None
    }
}

impl Combo {
    /// The character of the combo.
    pub closed spec fn spec_character(&self) -> Character {
        self.character
    }

    /// The vehicle of the combo.
    pub closed spec fn spec_vehicle(&self) -> Vehicle {
        self.vehicle
    }

    #[verifier::type_invariant]
    spec fn congruent(&self) -> bool {
        character_weight(self.character) == vehicle_weight(self.vehicle)
    }

    pub fn new(vehicle: Vehicle, character: Character) -> (r: Result<Self, ComboError>)
        ensures
            match r {
                Ok(combo) => character_weight(character) == vehicle_weight(vehicle)
                    && combo.spec_character() == character && combo.spec_vehicle() == vehicle,
                Err(e) => character_weight(character) != vehicle_weight(vehicle) && e
                    == ComboError::IncongruentWeightClasses,
            },
    {
        match character.get_weight_class() == vehicle.get_weight_class() {
            true => Ok(Self { character, vehicle }),
            false => Err(ComboError::IncongruentWeightClasses),
        }
    }

    pub fn character(&self) -> (r: Character)
        ensures
            r == self.spec_character(),
    {
        self.character
    }

    pub fn vehicle(&self) -> (r: Vehicle)
        ensures
            r == self.spec_vehicle(),
    {
        self.vehicle
    }

    /// Makes a combo of the numbers of a vehicle and of a character.
    pub fn from_ids(vehicle: u8, character: u8) -> (r: Result<Self, ComboError>)
        ensures
            match r {
                Ok(combo) => combo_fault(vehicle, character) is None && Ok::<_, ()>(
                    combo.spec_vehicle(),
                ) == vehicle_of(vehicle) && Ok::<_, ()>(combo.spec_character()) == character_of(
                    character,
                ),
                Err(e) => combo_fault(vehicle, character) == Some(e),
            },
    {
        let vehicle = match Vehicle::try_from(vehicle) {
            Ok(vehicle) => vehicle,
            Err(_) => {
                return Err(ComboError::InvalidVehicleId);
            },
        };
        let character = match Character::try_from(character) {
            Ok(character) => character,
            Err(_) => {
                return Err(ComboError::InvalidCharacterId);
            },
        };
        Self::new(vehicle, character)
    }

    /// Reads the combo out of bytes 0x08 and 0x09 of the header: six bits
    /// of the vehicle, then six bits of the character.
    pub fn from_byte_handler(handler: ByteHandler) -> (r: Result<Self, ComboError>)
        ensures
            match r {
                Ok(combo) => combo_fault(
                    field_at(handler@, 10, 6) as u8,
                    field_at(handler@, 4, 6) as u8,
                ) is None && Ok::<_, ()>(combo.spec_vehicle()) == vehicle_of(
                    field_at(handler@, 10, 6) as u8,
                ) && Ok::<_, ()>(combo.spec_character()) == character_of(
                    field_at(handler@, 4, 6) as u8,
                ),
                Err(e) => combo_fault(
                    field_at(handler@, 10, 6) as u8,
                    field_at(handler@, 4, 6) as u8,
                ) == Some(e),
            },
    {
        proof {
            vstd::arithmetic::power2::lemma2_to64();
        }
        Self::from_ids(handler.copy_bits(10, 6) as u8, handler.copy_bits(4, 6) as u8)
    }

    /// Reads the combo out of the next twelve bits of a reader: six bits of
    /// the vehicle, then six bits of the character. Where the reader has not
    /// that many bits left, its own error comes back.
    pub fn from_reader(reader: &mut BitReader<'_>) -> (r: Result<Self, ComboError>)
        ensures
            reader_bytes(*final(reader)) == reader_bytes(*old(reader)),
            reader_limit(*final(reader)) == reader_limit(*old(reader)),
            r matches Err(ComboError::BitReaderError(_)) <==> reader_position(*old(reader)) + 12
                > reader_limit(*old(reader)),
            reader_position(*old(reader)) + 12 <= reader_limit(*old(reader)) ==> {
                let vehicle = bits_value(
                    reader_bytes(*old(reader)),
                    reader_position(*old(reader)),
                    6,
                ) as u8;
                let character = bits_value(
                    reader_bytes(*old(reader)),
                    reader_position(*old(reader)) + 6,
                    6,
                ) as u8;
                &&& reader_position(*final(reader)) == reader_position(*old(reader)) + 12
                &&& match r {
                    Ok(combo) => combo_fault(vehicle, character) is None && Ok::<_, ()>(
                        combo.spec_vehicle(),
                    ) == vehicle_of(vehicle) && Ok::<_, ()>(combo.spec_character())
                        == character_of(character),
                    Err(e) => combo_fault(vehicle, character) == Some(e),
                }
            },
    {
        let vehicle = match reader.read_u8(6) {
            Ok(value) => value,
            Err(e) => {
                return Err(ComboError::BitReaderError(e));
            },
        };
        let character = match reader.read_u8(6) {
            Ok(value) => value,
            Err(e) => {
                return Err(ComboError::BitReaderError(e));
            },
        };
        Self::from_ids(vehicle, character)
    }
}

/// The weight class of a combo: that of its character, which is that of its
/// vehicle too.
impl GetWeightClass for Combo {
    open spec fn weight_class(&self) -> WeightClass {
        character_weight(self.spec_character())
    }

    fn get_weight_class(&self) -> (r: WeightClass)
        ensures
            r == vehicle_weight(self.spec_vehicle()),
    {
        proof {
            use_type_invariant(self);
        }
        self.character.get_weight_class()
    }
}

/// The weight class of a combo is that of its character and that of its
/// vehicle.
pub proof fn lemma_combo_weight_class(vehicle: u8, character: u8)
    requires
        combo_fault(vehicle, character) is None,
    ensures
        character_weight(character_of(character)->Ok_0) == vehicle_weight(
            vehicle_of(vehicle)->Ok_0,
        ),
{
}

#[derive(Clone, Copy, Debug, PartialEq, Eq, Structural)]
pub enum WeightClass {
    Small,
    Medium,
    Large,
}

pub trait GetWeightClass {
    /// The weight class of the value.
    spec fn weight_class(&self) -> WeightClass;

    fn get_weight_class(&self) -> (r: WeightClass)
        ensures
            r == self.weight_class(),
    ;
}

#[derive(Clone, Copy, Debug, PartialEq, Eq, Structural)]
pub enum Character {
    Mario,
    BabyPeach,
    Waluigi,
    Bowser,
    BabyDaisy,
    DryBones,
    BabyMario,
    Luigi,
    Toad,
    DonkeyKong,
    Yoshi,
    Wario,
    BabyLuigi,
    Toadette,
    KoopaTroopa,
    Daisy,
    Peach,
    Birdo,
    DiddyKong,
    KingBoo,
    BowserJr,
    DryBowser,
    FunkyKong,
    Rosalina,
    SmallMiiOutfitAMale,
    SmallMiiOutfitAFemale,
    SmallMiiOutfitBMale,
    SmallMiiOutfitBFemale,
    SmallMiiOutfitCMale,
    SmallMiiOutfitCFemale,
    MediumMiiOutfitAMale,
    MediumMiiOutfitAFemale,
    MediumMiiOutfitBMale,
    MediumMiiOutfitBFemale,
    MediumMiiOutfitCMale,
    MediumMiiOutfitCFemale,
    LargeMiiOutfitAMale,
    LargeMiiOutfitAFemale,
    LargeMiiOutfitBMale,
    LargeMiiOutfitBFemale,
    LargeMiiOutfitCMale,
    LargeMiiOutfitCFemale,
    MediumMii,
    SmallMii,
    LargeMii,
    MenuPeach,
    MenuDaisy,
    MenuRosalina,
}

/// The character that has the number `value`.
pub open spec fn character_of(value: u8) -> Result<Character, ()> {
    match value {
        0x00 => Ok(Character::Mario),
        0x01 => Ok(Character::BabyPeach),
        0x02 => Ok(Character::Waluigi),
        0x03 => Ok(Character::Bowser),
        0x04 => Ok(Character::BabyDaisy),
        0x05 => Ok(Character::DryBones),
        0x06 => Ok(Character::BabyMario),
        0x07 => Ok(Character::Luigi),
        0x08 => Ok(Character::Toad),
        0x09 => Ok(Character::DonkeyKong),
        0x0A => Ok(Character::Yoshi),
        0x0B => Ok(Character::Wario),
        0x0C => Ok(Character::BabyLuigi),
        0x0D => Ok(Character::Toadette),
        0x0E => Ok(Character::KoopaTroopa),
        0x0F => Ok(Character::Daisy),
        0x10 => Ok(Character::Peach),
        0x11 => Ok(Character::Birdo),
        0x12 => Ok(Character::DiddyKong),
        0x13 => Ok(Character::KingBoo),
        0x14 => Ok(Character::BowserJr),
        0x15 => Ok(Character::DryBowser),
        0x16 => Ok(Character::FunkyKong),
        0x17 => Ok(Character::Rosalina),
        0x18 => Ok(Character::SmallMiiOutfitAMale),
        0x19 => Ok(Character::SmallMiiOutfitAFemale),
        0x1A => Ok(Character::SmallMiiOutfitBMale),
        0x1B => Ok(Character::SmallMiiOutfitBFemale),
        0x1C => Ok(Character::SmallMiiOutfitCMale),
        0x1D => Ok(Character::SmallMiiOutfitCFemale),
        0x1E => Ok(Character::MediumMiiOutfitAMale),
        0x1F => Ok(Character::MediumMiiOutfitAFemale),
        0x20 => Ok(Character::MediumMiiOutfitBMale),
        0x21 => Ok(Character::MediumMiiOutfitBFemale),
        0x22 => Ok(Character::MediumMiiOutfitCMale),
        0x23 => Ok(Character::MediumMiiOutfitCFemale),
        0x24 => Ok(Character::LargeMiiOutfitAMale),
        0x25 => Ok(Character::LargeMiiOutfitAFemale),
        0x26 => Ok(Character::LargeMiiOutfitBMale),
        0x27 => Ok(Character::LargeMiiOutfitBFemale),
        0x28 => Ok(Character::LargeMiiOutfitCMale),
        0x29 => Ok(Character::LargeMiiOutfitCFemale),
        0x2A => Ok(Character::MediumMii),
        0x2B => Ok(Character::SmallMii),
        0x2C => Ok(Character::LargeMii),
        0x2D => Ok(Character::MenuPeach),
        0x2E => Ok(Character::MenuDaisy),
        0x2F => Ok(Character::MenuRosalina),
        _ => Err(()),
    }
}

impl TryFrom<u8> for Character {
    type Error = ();

    fn try_from(value: u8) -> (r: Result<Self, Self::Error>) {
        match value {
            0x00 => Ok(Self::Mario),
            0x01 => Ok(Self::BabyPeach),
            0x02 => Ok(Self::Waluigi),
            0x03 => Ok(Self::Bowser),
            0x04 => Ok(Self::BabyDaisy),
            0x05 => Ok(Self::DryBones),
            0x06 => Ok(Self::BabyMario),
            0x07 => Ok(Self::Luigi),
            0x08 => Ok(Self::Toad),
            0x09 => Ok(Self::DonkeyKong),
            0x0A => Ok(Self::Yoshi),
            0x0B => Ok(Self::Wario),
            0x0C => Ok(Self::BabyLuigi),
            0x0D => Ok(Self::Toadette),
            0x0E => Ok(Self::KoopaTroopa),
            0x0F => Ok(Self::Daisy),
            0x10 => Ok(Self::Peach),
            0x11 => Ok(Self::Birdo),
            0x12 => Ok(Self::DiddyKong),
            0x13 => Ok(Self::KingBoo),
            0x14 => Ok(Self::BowserJr),
            0x15 => Ok(Self::DryBowser),
            0x16 => Ok(Self::FunkyKong),
            0x17 => Ok(Self::Rosalina),
            0x18 => Ok(Self::SmallMiiOutfitAMale),
            0x19 => Ok(Self::SmallMiiOutfitAFemale),
            0x1A => Ok(Self::SmallMiiOutfitBMale),
            0x1B => Ok(Self::SmallMiiOutfitBFemale),
            0x1C => Ok(Self::SmallMiiOutfitCMale),
            0x1D => Ok(Self::SmallMiiOutfitCFemale),
            0x1E => Ok(Self::MediumMiiOutfitAMale),
            0x1F => Ok(Self::MediumMiiOutfitAFemale),
            0x20 => Ok(Self::MediumMiiOutfitBMale),
            0x21 => Ok(Self::MediumMiiOutfitBFemale),
            0x22 => Ok(Self::MediumMiiOutfitCMale),
            0x23 => Ok(Self::MediumMiiOutfitCFemale),
            0x24 => Ok(Self::LargeMiiOutfitAMale),
            0x25 => Ok(Self::LargeMiiOutfitAFemale),
            0x26 => Ok(Self::LargeMiiOutfitBMale),
            0x27 => Ok(Self::LargeMiiOutfitBFemale),
            0x28 => Ok(Self::LargeMiiOutfitCMale),
            0x29 => Ok(Self::LargeMiiOutfitCFemale),
            0x2A => Ok(Self::MediumMii),
            0x2B => Ok(Self::SmallMii),
            0x2C => Ok(Self::LargeMii),
            0x2D => Ok(Self::MenuPeach),
            0x2E => Ok(Self::MenuDaisy),
            0x2F => Ok(Self::MenuRosalina),
            _ => Err(()),
        }
    }
}

impl TryFromSpecImpl<u8> for Character {
    open spec fn obeys_try_from_spec() -> bool {
        true
    }

    open spec fn try_from_spec(value: u8) -> Result<Self, Self::Error> {
        character_of(value)
    }
}

/// The number of a character.
pub open spec fn character_code(value: Character) -> u8 {
    match value {
        Character::Mario => 0x00,
        Character::BabyPeach => 0x01,
        Character::Waluigi => 0x02,
        Character::Bowser => 0x03,
        Character::BabyDaisy => 0x04,
        Character::DryBones => 0x05,
        Character::BabyMario => 0x06,
        Character::Luigi => 0x07,
        Character::Toad => 0x08,
        Character::DonkeyKong => 0x09,
        Character::Yoshi => 0x0A,
        Character::Wario => 0x0B,
        Character::BabyLuigi => 0x0C,
        Character::Toadette => 0x0D,
        Character::KoopaTroopa => 0x0E,
        Character::Daisy => 0x0F,
        Character::Peach => 0x10,
        Character::Birdo => 0x11,
        Character::DiddyKong => 0x12,
        Character::KingBoo => 0x13,
        Character::BowserJr => 0x14,
        Character::DryBowser => 0x15,
        Character::FunkyKong => 0x16,
        Character::Rosalina => 0x17,
        Character::SmallMiiOutfitAMale => 0x18,
        Character::SmallMiiOutfitAFemale => 0x19,
        Character::SmallMiiOutfitBMale => 0x1A,
        Character::SmallMiiOutfitBFemale => 0x1B,
        Character::SmallMiiOutfitCMale => 0x1C,
        Character::SmallMiiOutfitCFemale => 0x1D,
        Character::MediumMiiOutfitAMale => 0x1E,
        Character::MediumMiiOutfitAFemale => 0x1F,
        Character::MediumMiiOutfitBMale => 0x20,
        Character::MediumMiiOutfitBFemale => 0x21,
        Character::MediumMiiOutfitCMale => 0x22,
        Character::MediumMiiOutfitCFemale => 0x23,
        Character::LargeMiiOutfitAMale => 0x24,
        Character::LargeMiiOutfitAFemale => 0x25,
        Character::LargeMiiOutfitBMale => 0x26,
        Character::LargeMiiOutfitBFemale => 0x27,
        Character::LargeMiiOutfitCMale => 0x28,
        Character::LargeMiiOutfitCFemale => 0x29,
        Character::MediumMii => 0x2A,
        Character::SmallMii => 0x2B,
        Character::LargeMii => 0x2C,
        Character::MenuPeach => 0x2D,
        Character::MenuDaisy => 0x2E,
        Character::MenuRosalina => 0x2F,
    }
}

impl From<Character> for u8 {
    fn from(value: Character) -> (r: u8) {
        match value {
            Character::Mario => 0x00,
            Character::BabyPeach => 0x01,
            Character::Waluigi => 0x02,
            Character::Bowser => 0x03,
            Character::BabyDaisy => 0x04,
            Character::DryBones => 0x05,
            Character::BabyMario => 0x06,
            Character::Luigi => 0x07,
            Character::Toad => 0x08,
            Character::DonkeyKong => 0x09,
            Character::Yoshi => 0x0A,
            Character::Wario => 0x0B,
            Character::BabyLuigi => 0x0C,
            Character::Toadette => 0x0D,
            Character::KoopaTroopa => 0x0E,
            Character::Daisy => 0x0F,
            Character::Peach => 0x10,
            Character::Birdo => 0x11,
            Character::DiddyKong => 0x12,
            Character::KingBoo => 0x13,
            Character::BowserJr => 0x14,
            Character::DryBowser => 0x15,
            Character::FunkyKong => 0x16,
            Character::Rosalina => 0x17,
            Character::SmallMiiOutfitAMale => 0x18,
            Character::SmallMiiOutfitAFemale => 0x19,
            Character::SmallMiiOutfitBMale => 0x1A,
            Character::SmallMiiOutfitBFemale => 0x1B,
            Character::SmallMiiOutfitCMale => 0x1C,
            Character::SmallMiiOutfitCFemale => 0x1D,
            Character::MediumMiiOutfitAMale => 0x1E,
            Character::MediumMiiOutfitAFemale => 0x1F,
            Character::MediumMiiOutfitBMale => 0x20,
            Character::MediumMiiOutfitBFemale => 0x21,
            Character::MediumMiiOutfitCMale => 0x22,
            Character::MediumMiiOutfitCFemale => 0x23,
            Character::LargeMiiOutfitAMale => 0x24,
            Character::LargeMiiOutfitAFemale => 0x25,
            Character::LargeMiiOutfitBMale => 0x26,
            Character::LargeMiiOutfitBFemale => 0x27,
            Character::LargeMiiOutfitCMale => 0x28,
            Character::LargeMiiOutfitCFemale => 0x29,
            Character::MediumMii => 0x2A,
            Character::SmallMii => 0x2B,
            Character::LargeMii => 0x2C,
            Character::MenuPeach => 0x2D,
            Character::MenuDaisy => 0x2E,
            Character::MenuRosalina => 0x2F,
        }
    }
}

impl FromSpecImpl<Character> for u8 {
    open spec fn obeys_from_spec() -> bool {
        true
    }

    open spec fn from_spec(value: Character) -> u8 {
        character_code(value)
    }
}

/// The weight class of a character.
pub open spec fn character_weight(value: Character) -> WeightClass {
    match value {
        Character::BabyDaisy
        | Character::BabyLuigi
        | Character::BabyMario
        | Character::BabyPeach
        | Character::DryBones
        | Character::KoopaTroopa
        | Character::SmallMii
        | Character::SmallMiiOutfitAMale
        | Character::SmallMiiOutfitAFemale
        | Character::SmallMiiOutfitBMale
        | Character::SmallMiiOutfitBFemale
        | Character::SmallMiiOutfitCMale
        | Character::SmallMiiOutfitCFemale
        | Character::Toad
        | Character::Toadette => WeightClass::Small,
        Character::Birdo
        | Character::BowserJr
        | Character::Daisy
        | Character::MenuDaisy
        | Character::DiddyKong
        | Character::Luigi
        | Character::Mario
        | Character::MediumMii
        | Character::MediumMiiOutfitAMale
        | Character::MediumMiiOutfitAFemale
        | Character::MediumMiiOutfitBMale
        | Character::MediumMiiOutfitBFemale
        | Character::MediumMiiOutfitCMale
        | Character::MediumMiiOutfitCFemale
        | Character::Peach
        | Character::MenuPeach
        | Character::Yoshi => WeightClass::Medium,
        Character::Bowser
        | Character::DonkeyKong
        | Character::DryBowser
        | Character::FunkyKong
        | Character::KingBoo
        | Character::LargeMii
        | Character::LargeMiiOutfitAMale
        | Character::LargeMiiOutfitAFemale
        | Character::LargeMiiOutfitBMale
        | Character::LargeMiiOutfitBFemale
        | Character::LargeMiiOutfitCMale
        | Character::LargeMiiOutfitCFemale
        | Character::MenuRosalina
        | Character::Rosalina
        | Character::Waluigi
        | Character::Wario => WeightClass::Large,
    }
}

impl GetWeightClass for Character {
    open spec fn weight_class(&self) -> WeightClass {
        character_weight(*self)
    }

    fn get_weight_class(&self) -> (r: WeightClass) {
        match self {
            Self::BabyDaisy
            | Self::BabyLuigi
            | Self::BabyMario
            | Self::BabyPeach
            | Self::DryBones
            | Self::KoopaTroopa
            | Self::SmallMii
            | Self::SmallMiiOutfitAMale
            | Self::SmallMiiOutfitAFemale
            | Self::SmallMiiOutfitBMale
            | Self::SmallMiiOutfitBFemale
            | Self::SmallMiiOutfitCMale
            | Self::SmallMiiOutfitCFemale
            | Self::Toad
            | Self::Toadette => WeightClass::Small,
            Self::Birdo
            | Self::BowserJr
            | Self::Daisy
            | Self::MenuDaisy
            | Self::DiddyKong
            | Self::Luigi
            | Self::Mario
            | Self::MediumMii
            | Self::MediumMiiOutfitAMale
            | Self::MediumMiiOutfitAFemale
            | Self::MediumMiiOutfitBMale
            | Self::MediumMiiOutfitBFemale
            | Self::MediumMiiOutfitCMale
            | Self::MediumMiiOutfitCFemale
            | Self::Peach
            | Self::MenuPeach
            | Self::Yoshi => WeightClass::Medium,
            Self::Bowser
            | Self::DonkeyKong
            | Self::DryBowser
            | Self::FunkyKong
            | Self::KingBoo
            | Self::LargeMii
            | Self::LargeMiiOutfitAMale
            | Self::LargeMiiOutfitAFemale
            | Self::LargeMiiOutfitBMale
            | Self::LargeMiiOutfitBFemale
            | Self::LargeMiiOutfitCMale
            | Self::LargeMiiOutfitCFemale
            | Self::MenuRosalina
            | Self::Rosalina
            | Self::Waluigi
            | Self::Wario => WeightClass::Large,
        }
    }
}

#[derive(Clone, Copy, Debug, PartialEq, Eq, Structural)]
pub enum Vehicle {
    StandardKartS,
    StandardKartM,
    StandardKartL,
    BoosterSeat,
    ClassicDragster,
    Offroader,
    MiniBeast,
    WildWing,
    FlameFlyer,
    CheepCharger,
    SuperBlooper,
    PiranhaProwler,
    TinyTitan,
    Daytripper,
    Jetsetter,
    BlueFalcon,
    Sprinter,
    Honeycoupe,
    StandardBikeS,
    StandardBikeM,
    StandardBikeL,
    BulletBike,
    MachBike,
    FlameRunner,
    BitBike,
    Sugarscoot,
    WarioBike,
    Quacker,
    ZipZip,
    ShootingStar,
    Magikruiser,
    Sneakster,
    Spear,
    JetBubble,
    DolphinDasher,
    Phantom,
}

/// The vehicle that has the number `value`.
pub open spec fn vehicle_of(value: u8) -> Result<Vehicle, ()> {
    match value {
        0x00 => Ok(Vehicle::StandardKartS),
        0x01 => Ok(Vehicle::StandardKartM),
        0x02 => Ok(Vehicle::StandardKartL),
        0x03 => Ok(Vehicle::BoosterSeat),
        0x04 => Ok(Vehicle::ClassicDragster),
        0x05 => Ok(Vehicle::Offroader),
        0x06 => Ok(Vehicle::MiniBeast),
        0x07 => Ok(Vehicle::WildWing),
        0x08 => Ok(Vehicle::FlameFlyer),
        0x09 => Ok(Vehicle::CheepCharger),
        0x0A => Ok(Vehicle::SuperBlooper),
        0x0B => Ok(Vehicle::PiranhaProwler),
        0x0C => Ok(Vehicle::TinyTitan),
        0x0D => Ok(Vehicle::Daytripper),
        0x0E => Ok(Vehicle::Jetsetter),
        0x0F => Ok(Vehicle::BlueFalcon),
        0x10 => Ok(Vehicle::Sprinter),
        0x11 => Ok(Vehicle::Honeycoupe),
        0x12 => Ok(Vehicle::StandardBikeS),
        0x13 => Ok(Vehicle::StandardBikeM),
        0x14 => Ok(Vehicle::StandardBikeL),
        0x15 => Ok(Vehicle::BulletBike),
        0x16 => Ok(Vehicle::MachBike),
        0x17 => Ok(Vehicle::FlameRunner),
        0x18 => Ok(Vehicle::BitBike),
        0x19 => Ok(Vehicle::Sugarscoot),
        0x1A => Ok(Vehicle::WarioBike),
        0x1B => Ok(Vehicle::Quacker),
        0x1C => Ok(Vehicle::ZipZip),
        0x1D => Ok(Vehicle::ShootingStar),
        0x1E => Ok(Vehicle::Magikruiser),
        0x1F => Ok(Vehicle::Sneakster),
        0x20 => Ok(Vehicle::Spear),
        0x21 => Ok(Vehicle::JetBubble),
        0x22 => Ok(Vehicle::DolphinDasher),
        0x23 => Ok(Vehicle::Phantom),
        _ => Err(()),
    }
}

impl TryFrom<u8> for Vehicle {
    type Error = ();

    fn try_from(value: u8) -> (r: Result<Self, Self::Error>) {
        match value {
            0x00 => Ok(Self::StandardKartS),
            0x01 => Ok(Self::StandardKartM),
            0x02 => Ok(Self::StandardKartL),
            0x03 => Ok(Self::BoosterSeat),
            0x04 => Ok(Self::ClassicDragster),
            0x05 => Ok(Self::Offroader),
            0x06 => Ok(Self::MiniBeast),
            0x07 => Ok(Self::WildWing),
            0x08 => Ok(Self::FlameFlyer),
            0x09 => Ok(Self::CheepCharger),
            0x0A => Ok(Self::SuperBlooper),
            0x0B => Ok(Self::PiranhaProwler),
            0x0C => Ok(Self::TinyTitan),
            0x0D => Ok(Self::Daytripper),
            0x0E => Ok(Self::Jetsetter),
            0x0F => Ok(Self::BlueFalcon),
            0x10 => Ok(Self::Sprinter),
            0x11 => Ok(Self::Honeycoupe),
            0x12 => Ok(Self::StandardBikeS),
            0x13 => Ok(Self::StandardBikeM),
            0x14 => Ok(Self::StandardBikeL),
            0x15 => Ok(Self::BulletBike),
            0x16 => Ok(Self::MachBike),
            0x17 => Ok(Self::FlameRunner),
            0x18 => Ok(Self::BitBike),
            0x19 => Ok(Self::Sugarscoot),
            0x1A => Ok(Self::WarioBike),
            0x1B => Ok(Self::Quacker),
            0x1C => Ok(Self::ZipZip),
            0x1D => Ok(Self::ShootingStar),
            0x1E => Ok(Self::Magikruiser),
            0x1F => Ok(Self::Sneakster),
            0x20 => Ok(Self::Spear),
            0x21 => Ok(Self::JetBubble),
            0x22 => Ok(Self::DolphinDasher),
            0x23 => Ok(Self::Phantom),
            _ => Err(()),
        }
    }
}

impl TryFromSpecImpl<u8> for Vehicle {
    open spec fn obeys_try_from_spec() -> bool {
        true
    }

    open spec fn try_from_spec(value: u8) -> Result<Self, Self::Error> {
        vehicle_of(value)
    }
}

/// The number of a vehicle.
pub open spec fn vehicle_code(value: Vehicle) -> u8 {
    match value {
        Vehicle::StandardKartS => 0x00,
        Vehicle::StandardKartM => 0x01,
        Vehicle::StandardKartL => 0x02,
        Vehicle::BoosterSeat => 0x03,
        Vehicle::ClassicDragster => 0x04,
        Vehicle::Offroader => 0x05,
        Vehicle::MiniBeast => 0x06,
        Vehicle::WildWing => 0x07,
        Vehicle::FlameFlyer => 0x08,
        Vehicle::CheepCharger => 0x09,
        Vehicle::SuperBlooper => 0x0A,
        Vehicle::PiranhaProwler => 0x0B,
        Vehicle::TinyTitan => 0x0C,
        Vehicle::Daytripper => 0x0D,
        Vehicle::Jetsetter => 0x0E,
        Vehicle::BlueFalcon => 0x0F,
        Vehicle::Sprinter => 0x10,
        Vehicle::Honeycoupe => 0x11,
        Vehicle::StandardBikeS => 0x12,
        Vehicle::StandardBikeM => 0x13,
        Vehicle::StandardBikeL => 0x14,
        Vehicle::BulletBike => 0x15,
        Vehicle::MachBike => 0x16,
        Vehicle::FlameRunner => 0x17,
        Vehicle::BitBike => 0x18,
        Vehicle::Sugarscoot => 0x19,
        Vehicle::WarioBike => 0x1A,
        Vehicle::Quacker => 0x1B,
        Vehicle::ZipZip => 0x1C,
        Vehicle::ShootingStar => 0x1D,
        Vehicle::Magikruiser => 0x1E,
        Vehicle::Sneakster => 0x1F,
        Vehicle::Spear => 0x20,
        Vehicle::JetBubble => 0x21,
        Vehicle::DolphinDasher => 0x22,
        Vehicle::Phantom => 0x23,
    }
}

impl From<Vehicle> for u8 {
    fn from(value: Vehicle) -> (r: u8) {
        match value {
            Vehicle::StandardKartS => 0x00,
            Vehicle::StandardKartM => 0x01,
            Vehicle::StandardKartL => 0x02,
            Vehicle::BoosterSeat => 0x03,
            Vehicle::ClassicDragster => 0x04,
            Vehicle::Offroader => 0x05,
            Vehicle::MiniBeast => 0x06,
            Vehicle::WildWing => 0x07,
            Vehicle::FlameFlyer => 0x08,
            Vehicle::CheepCharger => 0x09,
            Vehicle::SuperBlooper => 0x0A,
            Vehicle::PiranhaProwler => 0x0B,
            Vehicle::TinyTitan => 0x0C,
            Vehicle::Daytripper => 0x0D,
            Vehicle::Jetsetter => 0x0E,
            Vehicle::BlueFalcon => 0x0F,
            Vehicle::Sprinter => 0x10,
            Vehicle::Honeycoupe => 0x11,
            Vehicle::StandardBikeS => 0x12,
            Vehicle::StandardBikeM => 0x13,
            Vehicle::StandardBikeL => 0x14,
            Vehicle::BulletBike => 0x15,
            Vehicle::MachBike => 0x16,
            Vehicle::FlameRunner => 0x17,
            Vehicle::BitBike => 0x18,
            Vehicle::Sugarscoot => 0x19,
            Vehicle::WarioBike => 0x1A,
            Vehicle::Quacker => 0x1B,
            Vehicle::ZipZip => 0x1C,
            Vehicle::ShootingStar => 0x1D,
            Vehicle::Magikruiser => 0x1E,
            Vehicle::Sneakster => 0x1F,
            Vehicle::Spear => 0x20,
            Vehicle::JetBubble => 0x21,
            Vehicle::DolphinDasher => 0x22,
            Vehicle::Phantom => 0x23,
        }
    }
}

impl FromSpecImpl<Vehicle> for u8 {
    open spec fn obeys_from_spec() -> bool {
        true
    }

    open spec fn from_spec(value: Vehicle) -> u8 {
        vehicle_code(value)
    }
}

/// The weight class of a vehicle.
pub open spec fn vehicle_weight(value: Vehicle) -> WeightClass {
    match value {
        Vehicle::StandardKartS
        | Vehicle::BoosterSeat
        | Vehicle::MiniBeast
        | Vehicle::CheepCharger
        | Vehicle::TinyTitan
        | Vehicle::BlueFalcon
        | Vehicle::StandardBikeS
        | Vehicle::BulletBike
        | Vehicle::BitBike
        | Vehicle::Quacker
        | Vehicle::Magikruiser
        | Vehicle::JetBubble => WeightClass::Small,
        Vehicle::StandardKartM
        | Vehicle::ClassicDragster
        | Vehicle::WildWing
        | Vehicle::SuperBlooper
        | Vehicle::Daytripper
        | Vehicle::Sprinter
        | Vehicle::StandardBikeM
        | Vehicle::MachBike
        | Vehicle::Sugarscoot
        | Vehicle::ZipZip
        | Vehicle::Sneakster
        | Vehicle::DolphinDasher => WeightClass::Medium,
        Vehicle::Offroader
        | Vehicle::StandardKartL
        | Vehicle::FlameFlyer
        | Vehicle::PiranhaProwler
        | Vehicle::Jetsetter
        | Vehicle::Honeycoupe
        | Vehicle::StandardBikeL
        | Vehicle::FlameRunner
        | Vehicle::WarioBike
        | Vehicle::ShootingStar
        | Vehicle::Spear
        | Vehicle::Phantom => WeightClass::Large,
    }
}

impl GetWeightClass for Vehicle {
    open spec fn weight_class(&self) -> WeightClass {
        vehicle_weight(*self)
    }

    fn get_weight_class(&self) -> (r: WeightClass) {
        match self {
            Self::StandardKartS
            | Self::BoosterSeat
            | Self::MiniBeast
            | Self::CheepCharger
            | Self::TinyTitan
            | Self::BlueFalcon
            | Self::StandardBikeS
            | Self::BulletBike
            | Self::BitBike
            | Self::Quacker
            | Self::Magikruiser
            | Self::JetBubble => WeightClass::Small,
            Self::StandardKartM
            | Self::ClassicDragster
            | Self::WildWing
            | Self::SuperBlooper
            | Self::Daytripper
            | Self::Sprinter
            | Self::StandardBikeM
            | Self::MachBike
            | Self::Sugarscoot
            | Self::ZipZip
            | Self::Sneakster
            | Self::DolphinDasher => WeightClass::Medium,
            Self::Offroader
            | Self::StandardKartL
            | Self::FlameFlyer
            | Self::PiranhaProwler
            | Self::Jetsetter
            | Self::Honeycoupe
            | Self::StandardBikeL
            | Self::FlameRunner
            | Self::WarioBike
            | Self::ShootingStar
            | Self::Spear
            | Self::Phantom => WeightClass::Large,
        }
    }
}

/// Each vehicle is read back from its own number.
pub proof fn lemma_vehicle_code_read_back(value: Vehicle)
    ensures
        vehicle_of(vehicle_code(value)) == Ok::<_, ()>(value),
{
}

/// Each character is read back from its own number.
pub proof fn lemma_character_code_read_back(value: Character)
    ensures
        character_of(character_code(value)) == Ok::<_, ()>(value),
{
}

} // verus!
