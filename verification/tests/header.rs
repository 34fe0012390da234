use rkg_utils::byte_handler::ByteHandler;
use rkg_utils::header::combo::{Character, Combo, ComboError, GetWeightClass, Vehicle, WeightClass};
use rkg_utils::header::controller::{Controller, ControllerError};
use rkg_utils::header::date::{Date, DateError};
use rkg_utils::header::ghost_type::{GhostType, GhostTypeError};
use rkg_utils::header::in_game_time::InGameTime;
use rkg_utils::header::location::LocationVersioning;
use rkg_utils::header::mii::bday::{Birthday, BirthdayError};
use rkg_utils::header::mii::body::{Build, BuildError};
use rkg_utils::header::mii::eyebrows::{EyebrowType, Eyebrows, EyebrowsError};
use rkg_utils::header::mii::eyes::{EyeColor, EyeType, Eyes, EyesError};
use rkg_utils::header::mii::facial_hair::{BeardType, FacialHair, FacialHairError, MustacheType};
use rkg_utils::header::mii::fav_color::{FavColor, FavColorError};
use rkg_utils::header::mii::glasses::{Glasses, GlassesColor, GlassesError, GlassesType};
use rkg_utils::header::mii::hair::{Hair, HairColor, HairError, HairType};
use rkg_utils::header::mii::head::{FaceFeatures, Head, HeadError, HeadShape, SkinTone};
use rkg_utils::header::mii::lips::{Lips, LipsColor, LipsError, LipsType};
use rkg_utils::header::mii::mole::Mole;
use rkg_utils::header::mii::nose::{Nose, NoseError, NoseType};
use rkg_utils::header::mii::{utf16be_to_string, Mii, MiiError};
use rkg_utils::header::slot_id::{SlotId, SlotIdError};
use rkg_utils::header::{crc16, Header, HeaderError};
use rkg_utils::rkg::header::finish_time::FinishTime;
use rkg_utils::rkg::header::mii::get_name;

/// Writes fields of a few bits each one behind the other, the first at the
/// top of the first byte.
struct Bits {
    bytes: Vec<u8>,
    used: usize,
}

impl Bits {
    fn new() -> Self {
        Bits { bytes: Vec::new(), used: 0 }
    }

    fn put(&mut self, value: u64, width: usize) {
        for i in (0..width).rev() {
            if self.used % 8 == 0 {
                self.bytes.push(0);
            }
            if value >> i & 1 == 1 {
                let last = self.bytes.len() - 1;
                self.bytes[last] |= 0x80 >> (self.used % 8);
            }
            self.used += 1;
        }
    }

    fn name(&mut self, text: &str) {
        let units: Vec<u16> = text.encode_utf16().collect();
        for i in 0..10 {
            self.put(*units.get(i).unwrap_or(&0) as u64, 16);
        }
    }
}

/// The Mii of the player JC.
fn jc_mii() -> Vec<u8> {
    let mut b = Bits::new();
    b.put(0, 1); // unknown
    b.put(0, 1); // is a girl
    b.put(1, 4); // month
    b.put(1, 5); // day
    b.put(4, 4); // favorite color
    b.put(0, 1); // favorite
    b.name("JC");
    b.put(127, 8); // height
    b.put(127, 8); // weight
    b.put(0x893EF2FB, 32);
    b.put(0x689EC992, 32);
    b.put(3, 3); // shape of the head
    b.put(1, 3); // skin
    b.put(0, 4); // marks of the face
    b.put(2, 3); // not known
    b.put(1, 1); // mingle off
    b.put(0, 1);
    b.put(0, 1); // downloaded
    b.put(0x21, 7); // hair
    b.put(2, 3);
    b.put(0, 1);
    b.put(4, 5); // not known
    b.put(0x17, 5); // eyebrows
    b.put(0, 1);
    b.put(5, 4);
    b.put(6, 6); // not known
    b.put(1, 3);
    b.put(4, 4);
    b.put(10, 5);
    b.put(2, 4);
    b.put(0x05, 6); // eyes
    b.put(0, 2);
    b.put(4, 3);
    b.put(9, 5);
    b.put(0, 3);
    b.put(0, 1);
    b.put(6, 3);
    b.put(1, 4);
    b.put(0, 5);
    b.put(2, 4); // nose
    b.put(0, 4);
    b.put(8, 5);
    b.put(6, 3); // not known
    b.put(0x0C, 5); // lips
    b.put(0, 2);
    b.put(7, 4);
    b.put(6, 5);
    b.put(0, 4); // glasses
    b.put(0, 3);
    b.put(0, 1);
    b.put(4, 3);
    b.put(10, 5);
    b.put(0, 2); // mustache and beard
    b.put(0, 2);
    b.put(0, 3);
    b.put(4, 4);
    b.put(10, 5);
    b.put(0, 1); // mole
    b.put(4, 4);
    b.put(20, 5);
    b.put(2, 5);
    b.put(0, 1);
    b.name("JC");
    assert_eq!(b.bytes.len(), 0x4A);
    b.bytes
}

/// The CRC16 of XMODEM, bit by bit.
fn crc16_by_hand(bytes: &[u8]) -> u16 {
    let mut crc: u32 = 0;
    for byte in bytes {
        for bit in (0..8).rev() {
            let top = crc >> 15 & 1;
            crc = (crc << 1 | (*byte as u32 >> bit & 1)) & 0xFFFF;
            if top == 1 {
                crc ^= 0x1021;
            }
        }
    }
    for _ in 0..16 {
        let top = crc >> 15 & 1;
        crc = crc << 1 & 0xFFFF;
        if top == 1 {
            crc ^= 0x1021;
        }
    }
    crc as u16
}

/// The header of the ghost of JC on Luigi Circuit.
fn jc_header() -> Vec<u8> {
    let mut b = Bits::new();
    for byte in b"RKGD" {
        b.put(*byte as u64, 8);
    }
    b.put(1, 7); // 01:03.904
    b.put(3, 7);
    b.put(904, 10);
    b.put(0x08, 6); // Luigi Circuit
    b.put(0, 2);
    b.put(0x1A, 6); // Wario Bike
    b.put(0x13, 6); // King Boo
    b.put(25, 7); // 2025-11-12
    b.put(11, 4);
    b.put(12, 5);
    b.put(2, 4); // Classic Controller
    b.put(0, 4);
    b.put(1, 1); // compressed
    b.put(0, 2);
    b.put(0x26, 7); // expert staff ghost
    b.put(1, 1); // automatic drift
    b.put(0, 1);
    b.put(1856, 16);
    b.put(3, 8); // laps
    for (seconds, milliseconds) in [(25, 540), (19, 127), (19, 237)] {
        b.put(0, 7);
        b.put(seconds, 7);
        b.put(milliseconds, 10);
    }
    while b.bytes.len() < 0x34 {
        b.put(0, 8);
    }
    b.put(0xFF, 8); // no country
    b.put(0xFF, 8);
    b.put(0xFFFF, 16);
    b.put(0, 32);
    let mii = jc_mii();
    for byte in &mii {
        b.put(*byte as u64, 8);
    }
    b.put(0x06F4, 16); // the checksum of the Mii
    assert_eq!(b.bytes.len(), 0x88);
    b.bytes
}

#[test]
fn tests_test_rkg_header() {
    let header = Header::new(&jc_header()).expect("Couldn't read header");

    // General ghost info
    assert_eq!(header.finish_time().minutes(), 1);
    assert_eq!(header.finish_time().seconds(), 3);
    assert_eq!(header.finish_time().milliseconds(), 904);
    assert_eq!(header.finish_time().to_string(), "01:03.904");
    assert_eq!(header.slot_id(), SlotId::LuigiCircuit);
    assert_eq!(header.combo().vehicle(), Vehicle::WarioBike);
    assert_eq!(header.combo().character(), Character::KingBoo);
    assert_eq!(header.date_set(), &Date::new(2025, 11, 12).unwrap());
    assert_eq!(header.controller(), Controller::Classic);
    assert!(header.is_compressed());
    assert_eq!(header.ghost_type(), GhostType::ExpertStaff);
    assert!(header.is_automatic_drift());
    assert_eq!(header.decompressed_input_data_length(), 1856);
    assert_eq!(header.lap_count(), 3);
    assert_eq!(header.lap_split_times()[0].to_string(), "00:25.540");
    assert_eq!(header.lap_split_times()[1].to_string(), "00:19.127");
    assert_eq!(header.lap_split_times()[2].to_string(), "00:19.237");
    assert_eq!(header.country(), 0xFF);
    assert_eq!(header.subregion(), 0xFF);
    assert_eq!(header.location_code(), 0xFFFF);

    // Mii Data
    assert!(!header.mii().is_girl());
    assert_eq!(header.mii().birthday().month(), Some(1));
    assert_eq!(header.mii().birthday().day(), Some(1));
    assert_eq!(header.mii().favorite_color(), FavColor::ForestGreen);
    assert_eq!(header.mii().name(), "JC");
    assert_eq!(header.mii().build().height(), 127);
    assert_eq!(header.mii().build().weight(), 127);

    assert_eq!(header.mii().mii_id(), 0x893EF2FB);
    assert_eq!(header.mii().system_id(), 0x689EC992);

    assert_eq!(header.mii().head().shape(), HeadShape::Large);
    assert_eq!(header.mii().head().skin_tone(), SkinTone::Natural);
    assert_eq!(header.mii().head().face_features(), FaceFeatures::NoFeatures);

    assert!(header.mii().mingle_off());
    assert!(!header.mii().downloaded());

    assert_eq!(header.mii().hair().hair_type(), HairType::NormalLong);
    assert_eq!(header.mii().hair().hair_color(), HairColor::PhilippineBrown);
    assert!(!header.mii().hair().is_flipped());

    assert_eq!(header.mii().eyebrows().eyebrow_type(), EyebrowType::NoEyebrows);
    assert_eq!(header.mii().eyebrows().rotation(), 5);
    assert_eq!(header.mii().eyebrows().eyebrow_color(), HairColor::Chocolate);
    assert_eq!(header.mii().eyebrows().size(), 4);
    assert_eq!(header.mii().eyebrows().y(), 10);
    assert_eq!(header.mii().eyebrows().x(), 2);

    assert_eq!(header.mii().eyes().eye_type(), EyeType::DotAngry);
    assert_eq!(header.mii().eyes().rotation(), 4);
    assert_eq!(header.mii().eyes().y(), 9);
    assert_eq!(header.mii().eyes().eye_color(), EyeColor::Black);
    assert_eq!(header.mii().eyes().size(), 6);
    assert_eq!(header.mii().eyes().x(), 1);

    assert_eq!(header.mii().nose().nose_type(), NoseType::Dot);
    assert_eq!(header.mii().nose().size(), 0);
    assert_eq!(header.mii().nose().y(), 8);

    assert_eq!(header.mii().lips().lips_type(), LipsType::WaveAngry);
    assert_eq!(header.mii().lips().lips_color(), LipsColor::Orange);
    assert_eq!(header.mii().lips().size(), 7);
    assert_eq!(header.mii().lips().y(), 6);

    assert_eq!(header.mii().glasses().glasses_type(), GlassesType::NoGlasses);
    assert_eq!(header.mii().glasses().glasses_color(), GlassesColor::Black);
    assert_eq!(header.mii().glasses().size(), 4);
    assert_eq!(header.mii().glasses().y(), 10);

    assert_eq!(header.mii().facial_hair().mustache_type(), MustacheType::NoMustache);
    assert_eq!(header.mii().facial_hair().beard_type(), BeardType::NoBeard);
    assert_eq!(header.mii().facial_hair().color(), HairColor::Black);
    assert_eq!(header.mii().facial_hair().mustache_size(), 4);
    assert_eq!(header.mii().facial_hair().mustache_y(), 10);

    assert!(!header.mii().mole().has_mole());
    assert_eq!(header.mii().mole().size(), 4);
    assert_eq!(header.mii().mole().y(), 20);
    assert_eq!(header.mii().mole().x(), 2);

    assert_eq!(header.mii().creator_name(), "JC");

    assert_eq!(header.mii_crc16(), 0x06F4);
    assert!(header.verify_mii_crc16());
}

#[test]
fn test_nine_laps() {
    let mut data = jc_header();
    data[0x10] = 9;
    for lap in 0..9usize {
        let mut b = Bits::new();
        b.put(0, 7);
        b.put(10 + lap as u64, 7);
        b.put(100 * lap as u64, 10);
        data[0x11 + 3 * lap..0x14 + 3 * lap].copy_from_slice(&b.bytes);
    }
    let header = Header::new(&data[..0x88]).expect("Couldn't read header");
    assert_eq!(header.lap_count(), 9);
    assert_eq!(header.lap_split_times().len(), 9);
    for (index, lap) in header.lap_split_times().iter().enumerate() {
        assert_eq!(lap.to_string(), format!("00:{}.{:03}", 10 + index, 100 * index));
    }
    assert_eq!(header.finish_time().to_string(), "01:03.904");
}

#[test]
fn header_of_the_wrong_length_is_refused() {
    let data = jc_header();
    assert!(matches!(Header::new(&data[..0x87]), Err(HeaderError::NotCorrectSize)));
    let mut longer = data.clone();
    longer.push(0);
    assert!(matches!(Header::new(&longer), Err(HeaderError::NotCorrectSize)));
    assert!(matches!(Header::new(&[]), Err(HeaderError::NotCorrectSize)));
    // the length is looked at before the magic bytes
    assert!(matches!(Header::new(b"XXXX"), Err(HeaderError::NotCorrectSize)));
}

#[test]
fn header_without_the_magic_bytes_is_refused() {
    for i in 0..4 {
        let mut data = jc_header();
        data[i] ^= 0x20;
        assert!(matches!(Header::new(&data), Err(HeaderError::NotRKGD)));
    }
}

#[test]
fn header_fields_without_a_meaning_are_refused() {
    let mut data = jc_header();
    data[0x07] = 0x2A << 2;
    assert!(matches!(
        Header::new(&data),
        Err(HeaderError::SlotIdError(SlotIdError::NonExistentSlotId))
    ));

    let mut data = jc_header();
    data[0x08] = 0x3F << 2 | data[0x08] & 3;
    assert!(matches!(Header::new(&data), Err(HeaderError::ComboError(ComboError::InvalidVehicleId))));

    // vehicle 0x00 is a small kart; King Boo is large
    let mut data = jc_header();
    data[0x08] &= 3;
    assert!(matches!(
        Header::new(&data),
        Err(HeaderError::ComboError(ComboError::IncongruentWeightClasses))
    ));

    // character 0x30
    let mut data = jc_header();
    data[0x08] |= 3;
    data[0x09] &= 0x0F;
    assert!(matches!(Header::new(&data), Err(HeaderError::ComboError(ComboError::InvalidCharacterId))));

    // the month 13
    let mut data = jc_header();
    data[0x0A] = data[0x0A] & 0xE1 | 13 << 1;
    assert!(matches!(Header::new(&data), Err(HeaderError::DateError(DateError::MonthInvalid))));

    let mut data = jc_header();
    data[0x0B] = data[0x0B] & 0xF0 | 4;
    assert!(matches!(
        Header::new(&data),
        Err(HeaderError::ControllerError(ControllerError::NonexistentControllerID))
    ));

    // the kind of ghost 0
    let mut data = jc_header();
    data[0x0C] &= 0xFE;
    data[0x0D] &= 0x03;
    assert!(matches!(
        Header::new(&data),
        Err(HeaderError::GhostTypeError(GhostTypeError::NonexistentGhostType))
    ));

    let mut data = jc_header();
    data[0x10] = 11;
    assert!(matches!(Header::new(&data), Err(HeaderError::LapCountInvalid)));

    // the height of the Mii
    let mut data = jc_header();
    data[0x3C + 0x16] = 128;
    assert!(matches!(
        Header::new(&data),
        Err(HeaderError::MiiError(MiiError::BuildError(BuildError::HeightInvalid)))
    ));
}

#[test]
fn changed_mii_is_told_by_its_crc() {
    let mut data = jc_header();
    data[0x3C + 0x16] = 100;
    let mut header = Header::new(&data).unwrap();
    assert!(!header.verify_mii_crc16());
    let old = header.mii_crc16();
    header.fix_mii_crc16();
    assert!(header.verify_mii_crc16());
    assert_ne!(header.mii_crc16(), old);
    assert_eq!(header.mii_crc16(), crc16_by_hand(&data[0x3C..0x86]));
}

#[test]
fn crc16_is_that_of_xmodem() {
    assert_eq!(crc16(b"123456789"), 0x31C3);
    assert_eq!(crc16(b""), 0);
    assert_eq!(crc16(b"A"), 0x58E5);
    assert_eq!(crc16(&[0x00]), 0);
    let bytes: Vec<u8> = (0..=255).collect();
    assert_eq!(crc16(&bytes), crc16_by_hand(&bytes));
}

#[test]
fn header_fields_can_be_set() {
    let mut header = Header::new(&jc_header()).unwrap();
    header.set_finish_time(InGameTime::new(2, 30, 5));
    assert_eq!(header.finish_time().to_string(), "02:30.005");
    header.set_slot_id(SlotId::RainbowRoad);
    assert_eq!(header.slot_id(), SlotId::RainbowRoad);
    header.set_combo(Combo::new(Vehicle::MachBike, Character::Daisy).unwrap());
    assert_eq!(header.combo().vehicle(), Vehicle::MachBike);
    assert_eq!(header.combo().character(), Character::Daisy);
    header.set_date_set(Date::new(2008, 4, 10).unwrap());
    assert_eq!(header.date_set().year(), 2008);
    header.set_controller(Controller::Gamecube);
    assert_eq!(header.controller(), Controller::Gamecube);
    header.set_ghost_type(GhostType::PlayerBest);
    assert_eq!(header.ghost_type(), GhostType::PlayerBest);
    header.set_lap_split_times([InGameTime::new(0, 1, 2); 10]);
    assert_eq!(header.lap_split_times().len(), 3);
    assert_eq!(header.lap_split_times()[2].to_string(), "00:01.002");
    // what was not set is as before
    assert_eq!(header.lap_count(), 3);
    assert_eq!(header.mii().name(), "JC");
}

#[test]
fn in_game_time_is_read_from_three_bytes() {
    let time = InGameTime::from_byte_handler(ByteHandler::from_bytes(&[0x02, 0x0F, 0x88]).unwrap()).unwrap();
    assert_eq!((time.minutes(), time.seconds(), time.milliseconds()), (1, 3, 904));
    assert_eq!(time.to_string(), "01:03.904");
    let time = InGameTime::from_byte_handler(ByteHandler::from_bytes(&[0xFF, 0xFF, 0xFF]).unwrap()).unwrap();
    assert_eq!((time.minutes(), time.seconds(), time.milliseconds()), (127, 127, 1023));
    assert_eq!(time.to_string(), "127:127.1023");
    assert_eq!(InGameTime::new(0, 0, 0).to_string(), "00:00.000");
    assert_eq!(InGameTime::new(255, 9, 65535).to_string(), "255:09.65535");
}

#[test]
fn in_game_time_in_milliseconds() {
    assert_eq!(InGameTime::new(1, 3, 904).igt_to_millis(), 63904);
    assert_eq!(InGameTime::new(0, 0, 0).igt_to_millis(), 0);
    assert_eq!(InGameTime::new(255, 255, 65535).igt_to_millis(), 255 * 60000 + 255 * 1000 + 65535);
    assert!(!InGameTime::new(5, 59, 999).is_technically_valid());
    assert!(InGameTime::new(6, 0, 0).is_technically_valid());
    assert!(InGameTime::new(0, 60, 0).is_technically_valid());
    assert!(InGameTime::new(0, 0, 1000).is_technically_valid());
}

#[test]
fn dates_follow_the_calendar() {
    let date = Date::new(2025, 11, 12).unwrap();
    assert_eq!((date.year(), date.month(), date.day()), (2025, 11, 12));
    assert!(Date::new(2000, 1, 1).is_ok());
    assert!(Date::new(2035, 12, 31).is_ok());
    assert!(Date::new(2024, 2, 29).is_ok());
    assert_eq!(Date::new(2023, 2, 29).unwrap_err(), DateError::DayInvalid);
    assert_eq!(Date::new(2024, 2, 30).unwrap_err(), DateError::DayInvalid);
    assert_eq!(Date::new(2025, 4, 31).unwrap_err(), DateError::DayInvalid);
    assert_eq!(Date::new(2025, 1, 32).unwrap_err(), DateError::DayInvalid);
    assert_eq!(Date::new(2025, 1, 0).unwrap_err(), DateError::DayInvalid);
    assert_eq!(Date::new(2025, 0, 1).unwrap_err(), DateError::MonthInvalid);
    assert_eq!(Date::new(2025, 13, 1).unwrap_err(), DateError::MonthInvalid);
    assert_eq!(Date::new(2036, 1, 1).unwrap_err(), DateError::YearInvalid);
    assert_eq!(Date::new(1999, 12, 31).unwrap_err(), DateError::YearInvalid);
    // the year is looked at first, then the month
    assert_eq!(Date::new(2036, 13, 40).unwrap_err(), DateError::YearInvalid);
    assert_eq!(Date::new(2025, 13, 40).unwrap_err(), DateError::MonthInvalid);
    assert!(Date::new(2025, 11, 12).unwrap() == date);
    assert!(Date::new(2025, 11, 13).unwrap() != date);
}

#[test]
fn date_is_read_from_its_bits() {
    // XXXXYYYY YYYMMMMD DDDDXXXX
    let date = Date::from_byte_handler(ByteHandler::from_bytes(&[0x33, 0x36, 0xC2]).unwrap()).unwrap();
    assert_eq!((date.year(), date.month(), date.day()), (2025, 11, 12));
    // the year 2127
    assert_eq!(
        Date::from_byte_handler(ByteHandler::from_bytes(&[0x0F, 0xE2, 0x10]).unwrap()).unwrap_err(),
        DateError::YearInvalid
    );
}

#[test]
fn controllers_have_their_codes() {
    assert_eq!(Controller::try_from(0), Ok(Controller::WiiWheel));
    assert_eq!(Controller::try_from(1), Ok(Controller::Nunchuk));
    assert_eq!(Controller::try_from(2), Ok(Controller::Classic));
    assert_eq!(Controller::try_from(3), Ok(Controller::Gamecube));
    assert_eq!(Controller::try_from(4), Err(ControllerError::NonexistentControllerID));
    for code in 0..4u8 {
        assert_eq!(u8::from(Controller::try_from(code).unwrap()), code);
    }
    assert_eq!(Controller::from_byte_handler(ByteHandler::from(0xC2u8)), Ok(Controller::Classic));
}

#[test]
fn ghost_types_have_their_codes() {
    assert_eq!(GhostType::try_from(0x01), Ok(GhostType::PlayerBest));
    assert_eq!(GhostType::try_from(0x07), Ok(GhostType::Friend));
    assert_eq!(GhostType::try_from(0x24), Ok(GhostType::Friend));
    assert_eq!(GhostType::try_from(0x25), Ok(GhostType::NormalStaff));
    assert_eq!(GhostType::try_from(0x26), Ok(GhostType::ExpertStaff));
    assert_eq!(GhostType::try_from(0x00), Err(GhostTypeError::NonexistentGhostType));
    assert_eq!(GhostType::try_from(0x27), Err(GhostTypeError::NonexistentGhostType));
    assert_eq!(u8::from(GhostType::Friend), 0x24);
    for code in 1..=0x26u8 {
        let kind = GhostType::try_from(code).unwrap();
        assert_eq!(GhostType::try_from(u8::from(kind)), Ok(kind));
    }
    assert_eq!(
        GhostType::from_byte_handler(ByteHandler::from_bytes(&[0x08, 0x9A]).unwrap()),
        Ok(GhostType::ExpertStaff)
    );
}

#[test]
fn slots_have_their_numbers() {
    assert_eq!(SlotId::try_from(0x08), Ok(SlotId::LuigiCircuit));
    assert_eq!(SlotId::try_from(0x00), Ok(SlotId::MarioCircuit));
    assert_eq!(SlotId::try_from(0xC9), Ok(SlotId::GalaxyColosseum));
    assert_eq!(SlotId::try_from(0x2A), Err(SlotIdError::NonExistentSlotId));
    assert_eq!(u8::from(SlotId::RainbowRoad), 0x0D);
    let mut slots = 0;
    for code in 0..=255u8 {
        if let Ok(slot) = SlotId::try_from(code) {
            assert_eq!(u8::from(slot), code);
            slots += 1;
        }
    }
    assert_eq!(slots, 46);
    assert_eq!(SlotId::from_byte_handler(ByteHandler::from(0x23u8)), Ok(SlotId::LuigiCircuit));
}

#[test]
fn characters_and_vehicles_have_their_numbers() {
    assert_eq!(Character::try_from(0x13), Ok(Character::KingBoo));
    assert_eq!(Character::try_from(0x2F), Ok(Character::MenuRosalina));
    assert_eq!(Character::try_from(0x30), Err(()));
    // the number 0 is Mario's
    assert_eq!(Character::try_from(0x00), Ok(Character::Mario));
    assert_eq!(u8::from(Character::Mario), 0);
    assert_eq!(Character::Mario.get_weight_class(), WeightClass::Medium);
    let combo = Combo::from_byte_handler(ByteHandler::from([0x04u8, 0x00])).unwrap();
    assert_eq!((combo.vehicle(), combo.character()), (Vehicle::StandardKartM, Character::Mario));
    assert_eq!(Vehicle::try_from(0x1A), Ok(Vehicle::WarioBike));
    assert_eq!(Vehicle::try_from(0x00), Ok(Vehicle::StandardKartS));
    assert_eq!(Vehicle::try_from(0x24), Err(()));
    let mut characters = 0;
    for code in 0..=255u8 {
        if let Ok(character) = Character::try_from(code) {
            assert_eq!(u8::from(character), code);
            characters += 1;
        }
        if let Ok(vehicle) = Vehicle::try_from(code) {
            assert_eq!(u8::from(vehicle), code);
        }
    }
    // every number below 0x30 is a character's
    assert_eq!(characters, 0x30);
}

#[test]
fn combo_needs_one_weight_class() {
    assert_eq!(Character::KingBoo.get_weight_class(), WeightClass::Large);
    assert_eq!(Vehicle::WarioBike.get_weight_class(), WeightClass::Large);
    assert_eq!(Character::Toad.get_weight_class(), WeightClass::Small);
    assert_eq!(Vehicle::MachBike.get_weight_class(), WeightClass::Medium);
    let combo = Combo::new(Vehicle::WarioBike, Character::KingBoo).unwrap();
    assert_eq!(combo.character(), Character::KingBoo);
    assert_eq!(combo.vehicle(), Vehicle::WarioBike);
    assert_eq!(combo.get_weight_class(), WeightClass::Large);
    assert_eq!(
        Combo::new(Vehicle::WarioBike, Character::Toad).unwrap_err(),
        ComboError::IncongruentWeightClasses
    );
    assert_eq!(Combo::from_ids(0x1A, 0x13).unwrap(), combo);
    assert_eq!(Combo::from_ids(0x24, 0x13).unwrap_err(), ComboError::InvalidVehicleId);
    assert_eq!(Combo::from_ids(0x1A, 0x30).unwrap_err(), ComboError::InvalidCharacterId);
    // the vehicle is looked at first
    assert_eq!(Combo::from_ids(0x24, 0x30).unwrap_err(), ComboError::InvalidVehicleId);
    assert_eq!(Combo::from_byte_handler(ByteHandler::from_bytes(&[0x69, 0x33]).unwrap()).unwrap(), combo);
}

#[test]
fn location_lists_follow_one_another() {
    assert_eq!(LocationVersioning::get_min_from_country_id_number(1), LocationVersioning::Vanilla);
    assert_eq!(LocationVersioning::get_min_from_country_id_number(49), LocationVersioning::Vanilla);
    assert_eq!(LocationVersioning::get_min_from_country_id_number(255), LocationVersioning::Vanilla);
    assert_eq!(LocationVersioning::get_min_from_country_id_number(2), LocationVersioning::ExtendedRegionsV1_0);
    assert_eq!(LocationVersioning::get_min_from_country_id_number(53), LocationVersioning::ExtendedRegionsV1_0);
    assert_eq!(LocationVersioning::get_min_from_country_id_number(254), LocationVersioning::ExtendedRegionsV1_0);
    assert_eq!(LocationVersioning::Vanilla.next(), Some(LocationVersioning::ExtendedRegionsV1_0));
    assert_eq!(LocationVersioning::ExtendedRegionsV1_2.next(), Some(LocationVersioning::ExtendedRegionsV1_3));
    assert_eq!(LocationVersioning::ExtendedRegionsV1_3.next(), None);
    assert!(LocationVersioning::Vanilla < LocationVersioning::ExtendedRegionsV1_1);
}

#[test]
fn mii_of_the_wrong_length_is_refused() {
    let data = jc_mii();
    assert!(matches!(Mii::new(&data[..0x49]), Err(MiiError::InvalidLength)));
    let mut longer = data.clone();
    longer.push(0);
    assert!(matches!(Mii::new(&longer), Err(MiiError::InvalidLength)));
    assert!(Mii::new(&data).is_ok());
}

#[test]
fn mii_is_favorite_where_the_bit_is_clear() {
    let mut data = jc_mii();
    assert!(Mii::new(&data).unwrap().is_favorite());
    data[1] |= 1;
    assert!(!Mii::new(&data).unwrap().is_favorite());
    data[0] |= 0x40;
    assert!(Mii::new(&data).unwrap().is_girl());
}

#[test]
fn mii_parts_without_a_meaning_are_refused() {
    let set = |at: usize, value: u8| {
        let mut data = jc_mii();
        data[at] = value;
        Mii::new(&data).err()
    };
    // the month 13 with the day 1
    assert_eq!(set(0, 0x34), Some(MiiError::BirthdayError(BirthdayError::MonthInvalid)));
    // the 31st of February
    let mut data = jc_mii();
    data[0] = 0x0B;
    data[1] |= 0xE0;
    assert_eq!(Mii::new(&data).err(), Some(MiiError::BirthdayError(BirthdayError::DayInvalid)));
    assert_eq!(set(1, 0x20 | 12 << 1), Some(MiiError::FavColorError(FavColorError::ColorInvalid)));
    assert_eq!(set(0x02, 0xD8), Some(MiiError::FromUtf16Error));
    assert_eq!(set(0x16, 0x80), Some(MiiError::BuildError(BuildError::HeightInvalid)));
    assert_eq!(set(0x17, 0x80), Some(MiiError::BuildError(BuildError::WeightInvalid)));
    assert_eq!(set(0x20, 0x78), Some(MiiError::HeadError(HeadError::SkinToneInvalid)));
    assert_eq!(set(0x20, 0x67), Some(MiiError::HeadError(HeadError::FaceFeaturesInvalid)));
    assert_eq!(set(0x22, 0x48 << 1), Some(MiiError::HairError(HairError::TypeInvalid)));
    let mut data = jc_mii();
    data[0x22] |= 1;
    data[0x23] = 0xC0;
    assert_eq!(Mii::new(&data).err(), Some(MiiError::HairError(HairError::ColorInvalid)));
    assert_eq!(set(0x24, 0x18 << 3), Some(MiiError::EyebrowsError(EyebrowsError::TypeInvalid)));
    assert_eq!(set(0x26, 0xE8), Some(MiiError::EyebrowsError(EyebrowsError::ColorInvalid)));
    assert_eq!(set(0x28, 0x30 << 2), Some(MiiError::EyesError(EyesError::TypeInvalid)));
    assert_eq!(set(0x2A, 0xCC), Some(MiiError::EyesError(EyesError::ColorInvalid)));
    assert_eq!(set(0x2C, 0xC0), Some(MiiError::NoseError(NoseError::TypeInvalid)));
    assert_eq!(set(0x2E, 0x18 << 3), Some(MiiError::LipsError(LipsError::TypeInvalid)));
    assert_eq!(set(0x2E, 0x0C << 3 | 0x06), Some(MiiError::LipsError(LipsError::ColorInvalid)));
    assert_eq!(set(0x30, 0x90), Some(MiiError::GlassesError(GlassesError::TypeInvalid)));
    assert_eq!(set(0x32, 0x0E), Some(MiiError::FacialHairError(FacialHairError::ColorInvalid)));
    assert_eq!(set(0x36, 0xDC), Some(MiiError::FromUtf16Error));
}

#[test]
fn mii_names_are_utf16() {
    assert_eq!(utf16be_to_string(&[0x00, 0x4A, 0x00, 0x43, 0, 0, 0x00, 0x41]).unwrap(), "JC");
    assert_eq!(utf16be_to_string(&[0x30, 0x42, 0x00, 0xE9]).unwrap(), "あé");
    // a pair of surrogates is one character
    assert_eq!(utf16be_to_string(&[0xD8, 0x3D, 0xDE, 0x00]).unwrap(), "😀");
    assert!(utf16be_to_string(&[0xD8, 0x3D, 0x00, 0x41]).is_err());
    assert_eq!(utf16be_to_string(&[]).unwrap(), "");
    // a byte that is left over is not looked at
    assert_eq!(utf16be_to_string(&[0x00, 0x41, 0x42]).unwrap(), "A");
    let mut data = jc_mii();
    data[0x02..0x0A].copy_from_slice(&[0x00, 0x4D, 0x00, 0xE4, 0x00, 0x78, 0x00, 0x00]);
    assert_eq!(Mii::new(&data).unwrap().name(), "Mäx");
}

#[test]
fn raw_names_skip_what_is_zero() {
    assert_eq!(get_name(&[0x4A, 0, 0x43, 0, 0, 0, 0, 0, 0, 0x21]), "JC!");
    assert_eq!(get_name(&[0; 10]), "");
    assert_eq!(get_name(&[0x3042, 0xE9, 0, 0, 0, 0, 0, 0, 0, 0]), "あé");
    // a surrogate alone stands for no character
    assert_eq!(get_name(&[0xD83D, 0x41, 0, 0, 0, 0, 0, 0, 0, 0]), "\u{FFFD}A");
}

#[test]
fn birthdays_may_be_left_open() {
    let open = Birthday::new(0, 17).unwrap();
    assert_eq!((open.month(), open.day()), (None, None));
    let month_only = Birthday::new(7, 0).unwrap();
    assert_eq!((month_only.month(), month_only.day()), (Some(7), None));
    let month_only = Birthday::new(15, 0).unwrap();
    assert_eq!((month_only.month(), month_only.day()), (Some(15), None));
    let full = Birthday::new(2, 29).unwrap();
    assert_eq!((full.month(), full.day()), (Some(2), Some(29)));
    assert_eq!(Birthday::new(2, 30).unwrap_err(), BirthdayError::DayInvalid);
    assert_eq!(Birthday::new(4, 31).unwrap_err(), BirthdayError::DayInvalid);
    assert_eq!(Birthday::new(12, 31).unwrap(), Birthday::new(12, 31).unwrap());
    assert_eq!(Birthday::new(13, 1).unwrap_err(), BirthdayError::MonthInvalid);
    let read = Birthday::from_byte_handler(ByteHandler::from_bytes(&[0x04, 0x28]).unwrap()).unwrap();
    assert_eq!((read.month(), read.day()), (Some(1), Some(1)));
}

#[test]
fn builds_are_up_to_127() {
    assert_eq!(Build::new(127, 0).unwrap(), Build { height: 127, weight: 0 });
    assert_eq!(Build::new(128, 0).unwrap_err(), BuildError::HeightInvalid);
    assert_eq!(Build::new(0, 128).unwrap_err(), BuildError::WeightInvalid);
    assert_eq!(Build::new(200, 200).unwrap_err(), BuildError::HeightInvalid);
    let build = Build::from_byte_handler(ByteHandler::from_bytes(&[64, 32]).unwrap()).unwrap();
    assert_eq!((build.height(), build.weight()), (64, 32));
}

#[test]
fn mii_parts_are_read_from_their_bits() {
    let word = |bytes: &[u8]| ByteHandler::from_bytes(bytes).unwrap();
    let head = Head::from_byte_handler(word(&[0b011_001_00, 0b00_000_1_0_0])).unwrap();
    assert_eq!(head, Head { shape: HeadShape::Large, skin_tone: SkinTone::Natural, face_features: FaceFeatures::NoFeatures });
    assert_eq!(Head::from_byte_handler(word(&[0xFF, 0xFF])).unwrap_err(), HeadError::SkinToneInvalid);
    let hair = Hair::from_byte_handler(word(&[0x21 << 1, 0b10_1_00000])).unwrap();
    assert_eq!(hair, Hair { hair_type: HairType::NormalLong, hair_color: HairColor::PhilippineBrown, is_flipped: true });
    let mole = Mole::from_byte_handler(word(&[0b1_0100_101, 0b00_00010_0])).unwrap();
    assert_eq!(mole, Mole { has_mole: true, size: 4, y: 20, x: 2 });
    let nose = Nose::from_byte_handler(word(&[0x2F, 0x40])).unwrap();
    assert_eq!(nose, Nose { nose_type: NoseType::Dot, size: 15, y: 8 });
    let lips = Lips::from_byte_handler(word(&[0x0C << 3 | 0b100, 0b111_00110])).unwrap();
    assert_eq!(lips, Lips { lips_type: LipsType::WaveAngry, lips_color: LipsColor::Pink, size: 7, y: 6 });
    let glasses = Glasses::from_byte_handler(word(&[0x80 | 0b0010, 0b100_01010])).unwrap();
    assert_eq!(glasses, Glasses { glasses_type: GlassesType::SemiOpaqueCatEye, glasses_color: GlassesColor::Brown, size: 4, y: 10 });
    let facial_hair = FacialHair::from_byte_handler(word(&[0b01_10_011_0, 0b100_01010])).unwrap();
    assert_eq!(
        facial_hair,
        FacialHair {
            mustache_type: MustacheType::Walrus,
            beard_type: BeardType::GoateeLong,
            color: HairColor::Walnut,
            mustache_size: 4,
            mustache_y: 10
        }
    );
    let eyebrows = Eyebrows::from_byte_handler(word(&[0x17 << 3 | 0b001, 0b01_000000, 0b001_0100_0, 0b1010_0010])).unwrap();
    assert_eq!(
        eyebrows,
        Eyebrows { eyebrow_type: EyebrowType::NoEyebrows, rotation: 5, eyebrow_color: HairColor::Chocolate, size: 4, y: 10, x: 2 }
    );
    let eyes = Eyes::from_byte_handler(word(&[0x05 << 2, 0b100_01001, 0b000_0_110_0, 0b001_00000])).unwrap();
    assert_eq!(eyes, Eyes { eye_type: EyeType::DotAngry, rotation: 4, y: 9, eye_color: EyeColor::Black, size: 6, x: 1 });
    assert_eq!(FavColor::from_byte_handler(ByteHandler::from(0x28u8)), Ok(FavColor::ForestGreen));
    assert_eq!(u8::from(FavColor::Black), 11);
}

#[test]
fn raw_finish_time_shows_itself() {
    let time = FinishTime::new(1, 3, 904);
    assert_eq!((time.minutes(), time.seconds(), time.milliseconds()), (1, 3, 904));
    assert_eq!(time.string(), "01:03.904");
    assert_eq!(FinishTime::new(0, 0, 7).string(), "00:00.007");
}
