use bitreader::BitReader;
use rkg_utils::ctgp_metadata::category::{Category, CategoryError};
use rkg_utils::header::combo::{Character, Combo, ComboError, Vehicle};
use rkg_utils::header::slot_id::{SlotId, SlotIdError};
use rkg_utils::rkg::header::finish_time::FinishTime;
use rkg_utils::rkg::header::mii::Mii;
use rkg_utils::rkg::header::Header;

/// Writes fields of a few bits each one behind the other, the first at the
/// top of the first byte.
struct Bits {
    bytes: Vec<u8>,
    used: usize,
}

impl Bits {
    fn new() -> Self {
        Bits { bytes: Vec::new(), used: 0 }
    }

    fn put(&mut self, value: u64, width: usize) {
        for i in (0..width).rev() {
            if self.used % 8 == 0 {
                self.bytes.push(0);
            }
            if value >> i & 1 == 1 {
                let last = self.bytes.len() - 1;
                self.bytes[last] |= 0x80 >> (self.used % 8);
            }
            self.used += 1;
        }
    }

    fn name(&mut self, text: &str) {
        let units: Vec<u16> = text.encode_utf16().collect();
        for i in 0..10 {
            self.put(*units.get(i).unwrap_or(&0) as u64, 16);
        }
    }
}

/// The Mii of the player JC.
fn jc_mii() -> Vec<u8> {
    let mut b = Bits::new();
    b.put(0, 1); // unknown
    b.put(0, 1); // is a girl
    b.put(1, 4); // month
    b.put(1, 5); // day
    b.put(4, 4); // favorite color
    b.put(0, 1); // favorite
    b.name("JC");
    b.put(127, 8); // height
    b.put(127, 8); // weight
    b.put(0x893EF2FB, 32);
    b.put(0x689EC992, 32);
    b.put(3, 3); // shape of the head
    b.put(1, 3); // skin
    b.put(0, 4); // marks of the face
    b.put(2, 3); // not known
    b.put(1, 1); // mingle off
    b.put(0, 1);
    b.put(0, 1); // downloaded
    b.put(0x21, 7); // hair
    b.put(2, 3);
    b.put(0, 1);
    b.put(4, 5); // not known
    b.put(0x17, 5); // eyebrows
    b.put(0, 1);
    b.put(5, 4);
    b.put(6, 6); // not known
    b.put(1, 3);
    b.put(4, 4);
    b.put(10, 5);
    b.put(2, 4);
    b.put(0x05, 6); // eyes
    b.put(0, 2);
    b.put(4, 3);
    b.put(9, 5);
    b.put(0, 3);
    b.put(0, 1);
    b.put(6, 3);
    b.put(1, 4);
    b.put(0, 5);
    b.put(2, 4); // nose
    b.put(0, 4);
    b.put(8, 5);
    b.put(6, 3); // not known
    b.put(0x0C, 5); // lips
    b.put(0, 2);
    b.put(7, 4);
    b.put(6, 5);
    b.put(0, 4); // glasses
    b.put(0, 3);
    b.put(0, 1);
    b.put(4, 3);
    b.put(10, 5);
    b.put(0, 2); // mustache and beard
    b.put(0, 2);
    b.put(0, 3);
    b.put(4, 4);
    b.put(10, 5);
    b.put(0, 1); // mole
    b.put(4, 4);
    b.put(20, 5);
    b.put(2, 5);
    b.put(0, 1);
    b.name("JC");
    assert_eq!(b.bytes.len(), 0x4A);
    b.bytes
}

/// The header of the ghost of JC on Luigi Circuit.
fn jc_header() -> Vec<u8> {
    let mut b = Bits::new();
    for byte in b"RKGD" {
        b.put(*byte as u64, 8);
    }
    b.put(1, 7); // 01:03.904
    b.put(3, 7);
    b.put(904, 10);
    b.put(0x08, 6); // Luigi Circuit
    b.put(0, 2);
    b.put(0x1A, 6); // Wario Bike
    b.put(0x13, 6); // King Boo
    b.put(25, 7); // 2025-11-12
    b.put(11, 4);
    b.put(12, 5);
    b.put(2, 4); // Classic Controller
    b.put(0, 4);
    b.put(1, 1); // compressed
    b.put(0, 2);
    b.put(0x26, 7); // expert staff ghost
    b.put(1, 1); // automatic drift
    b.put(0, 1);
    b.put(1856, 16);
    b.put(3, 8); // laps
    for (seconds, milliseconds) in [(25, 540), (19, 127), (19, 237)] {
        b.put(0, 7);
        b.put(seconds, 7);
        b.put(milliseconds, 10);
    }
    while b.bytes.len() < 0x34 {
        b.put(0, 8);
    }
    b.put(0xFF, 8); // no country
    b.put(0xFF, 8);
    b.put(0xFFFF, 16);
    b.put(0, 32);
    let mii = jc_mii();
    for byte in &mii {
        b.put(*byte as u64, 8);
    }
    b.put(1780, 16); // the checksum of the Mii
    assert_eq!(b.bytes.len(), 0x88);
    b.bytes
}

#[test]
fn rkg_header_tests_test_rkg_header() {
    let rkg_data = jc_header();
    let header: Header = Header::new(&rkg_data).unwrap();

    assert_eq!(header.rkgd(), "RKGD");
    assert_eq!(header.finish_time().minutes(), 1);
    assert_eq!(header.finish_time().seconds(), 3);
    assert_eq!(header.finish_time().milliseconds(), 904);
    assert_eq!(header.finish_time().string(), "01:03.904");
    assert_eq!(header.track_id(), 0x08);
    assert_eq!(header.vehicle_id(), 0x1A);
    assert_eq!(header.character_id(), 0x13);
    assert_eq!(header.year_set() as u16 + 2000, 2025);
    assert_eq!(header.month_set(), 11);
    assert_eq!(header.day_set(), 12);
    assert_eq!(header.controller_id(), 2);
    assert_eq!(header.is_compressed(), true);
    assert_eq!(header.ghost_type(), 0x26);
    assert_eq!(header.is_automatic_drift(), true);
    assert_eq!(header.decompressed_input_data_length(), 1856);
    assert_eq!(header.lap_count(), 3);
    assert_eq!(header.lap_split_times()[0].string(), "00:25.540");
    assert_eq!(header.lap_split_times()[1].string(), "00:19.127");
    assert_eq!(header.lap_split_times()[2].string(), "00:19.237");
    assert_eq!(header.country_code(), 0xFF);
    assert_eq!(header.state_code(), 0xFF);
    assert_eq!(header.location_code(), 0xFFFF);
    assert_eq!(header.mii_crc16(), 1780);
}

#[test]
fn raw_header_holds_every_field() {
    let mut data = jc_header();
    data[0x07] |= 0b10;
    data[0x0C] |= 0b1010_0100;
    data[0x0D] |= 1;
    data[0x38..0x3C].copy_from_slice(&[0xDE, 0xAD, 0xBE, 0xEF]);
    let header = Header::new(&data).unwrap();
    assert_eq!(header.unknown1(), 2);
    assert_eq!(header.unknown2(), 0b1010);
    assert_eq!(header.unknown3(), 0b10);
    assert!(header.unknown4());
    assert_eq!(header.unknown6(), 0xDEAD_BEEF);
    assert_eq!(header.lap_split_times().len(), 3);
    assert_eq!(header.mii_data().name(), "JC");
    assert_eq!(header.mii_data().creator_name(), "JC");
    assert_eq!(header.mii_data().mii_id4(), 0xFB);
}

#[test]
fn raw_header_holds_the_laps_that_it_has_room_for() {
    let mut data = jc_header();
    data[0x10] = 200;
    let header = Header::new(&data).unwrap();
    assert_eq!(header.lap_count(), 200);
    assert_eq!(header.lap_split_times().len(), 10);
    assert_eq!(header.lap_split_times()[3].string(), "00:00.000");
    data[0x10] = 0;
    assert_eq!(Header::new(&data).unwrap().lap_split_times().len(), 0);
}

#[test]
fn raw_header_that_is_cut_off_is_refused() {
    let data = jc_header();
    for len in [0usize, 3, 4, 0x10, 0x33, 0x3C, 0x86, 0x87] {
        assert!(Header::new(&data[..len]).is_err(), "length {:#x}", len);
    }
    assert!(Header::new(&data).is_ok());
    // bytes behind the header are not looked at
    let mut longer = data.clone();
    longer.extend_from_slice(&[0xFF; 40]);
    assert_eq!(Header::new(&longer).unwrap().mii_crc16(), 1780);
}

#[test]
fn raw_mii_holds_every_field() {
    let mii = Mii::new(&jc_mii()).unwrap();
    assert!(!mii.unknown1());
    assert!(!mii.is_girl());
    assert_eq!((mii.month(), mii.day()), (1, 1));
    assert_eq!(mii.favorite_color(), 4);
    assert!(!mii.is_favorite());
    assert_eq!(mii.name(), "JC");
    assert_eq!((mii.height(), mii.weight()), (127, 127));
    assert_eq!([mii.mii_id1(), mii.mii_id2(), mii.mii_id3(), mii.mii_id4()], [0x89, 0x3E, 0xF2, 0xFB]);
    assert_eq!(
        [mii.system_id0(), mii.system_id1(), mii.system_id2(), mii.system_id3()],
        [0x68, 0x9E, 0xC9, 0x92]
    );
    assert_eq!((mii.face_shape(), mii.skin_color(), mii.facial_feature()), (3, 1, 0));
    assert_eq!(mii.unknown2(), 2);
    assert!(mii.mingle_off());
    assert!(!mii.unknown3());
    assert!(!mii.downloaded());
    assert_eq!((mii.hair_type(), mii.hair_color(), mii.hair_part_reversed()), (0x21, 2, false));
    assert_eq!(mii.unknown4(), 4);
    assert_eq!((mii.eyebrow_type(), mii.unknown5(), mii.eyebrow_rotation()), (0x17, false, 5));
    assert_eq!(mii.unknown6(), 6);
    assert_eq!((mii.eyebrow_color(), mii.eyebrow_size()), (1, 4));
    assert_eq!((mii.eyebrow_vertical_pos(), mii.eyebrow_horizontal_spacing()), (10, 2));
    assert_eq!((mii.eye_type(), mii.unknown7(), mii.eye_rotation(), mii.eye_vertical_pos()), (5, 0, 4, 9));
    assert_eq!((mii.eye_color(), mii.unknown8(), mii.eye_size()), (0, false, 6));
    assert_eq!((mii.eye_horizontal_spacing(), mii.unknown9()), (1, 0));
    assert_eq!((mii.nose_type(), mii.nose_size(), mii.nose_vertical_pos(), mii.unknown10()), (2, 0, 8, 6));
    assert_eq!((mii.lip_type(), mii.lip_color(), mii.lip_size(), mii.lip_vertical_pos()), (0x0C, 0, 7, 6));
    assert_eq!((mii.glasses_type(), mii.glasses_color(), mii.unknown11()), (0, 0, false));
    assert_eq!((mii.glasses_size(), mii.glasses_vertical_pos()), (4, 10));
    assert_eq!((mii.mustache_type(), mii.beard_type(), mii.facial_hair_color()), (0, 0, 0));
    assert_eq!((mii.mustache_size(), mii.mustache_vertical_pos()), (4, 10));
    assert_eq!((mii.has_mole(), mii.mole_size()), (false, 4));
    assert_eq!((mii.mole_vertical_pos(), mii.mole_horizontal_pos(), mii.unknown12()), (20, 2, false));
    assert_eq!(mii.creator_name(), "JC");
}

#[test]
fn raw_mii_reads_every_bit() {
    let mii = Mii::new(&[0xFF; 0x4A]).unwrap();
    assert!(mii.unknown1() && mii.is_girl() && mii.is_favorite() && mii.unknown12());
    assert_eq!((mii.month(), mii.day(), mii.favorite_color()), (15, 31, 15));
    assert_eq!((mii.hair_type(), mii.eye_type(), mii.unknown6()), (127, 63, 63));
    assert_eq!((mii.lip_color(), mii.mustache_type(), mii.beard_type()), (3, 3, 3));
    assert_eq!(mii.name(), "\u{FFFF}".repeat(10));
    assert!(Mii::new(&[0; 0x49]).is_err());
    assert!(Mii::new(&[]).is_err());
    let mii = Mii::new(&[0; 0x4B]).unwrap();
    assert_eq!(mii.name(), "");
    assert_eq!((mii.month(), mii.mole_horizontal_pos()), (0, 0));
}

#[test]
fn readers_hand_over_typed_fields() {
    let bytes = [0x02, 0x0F, 0x88, 0x23, 0x69, 0x33, 0x23];
    let mut reader = BitReader::new(&bytes);
    let time = FinishTime::from_reader(&mut reader);
    assert_eq!(time.string(), "01:03.904");
    assert_eq!(reader.position(), 24);
    assert_eq!(SlotId::from_reader(&mut reader), Ok(SlotId::LuigiCircuit));
    assert_eq!(reader.position(), 30);
    reader.skip(2).unwrap();
    let combo = Combo::from_reader(&mut reader).unwrap();
    assert_eq!((combo.vehicle(), combo.character()), (Vehicle::WarioBike, Character::KingBoo));
    assert_eq!(reader.position(), 44);
    reader.skip(4).unwrap();
    assert_eq!(Category::from_reader(&mut reader), Ok(Category::NoGlitchTAS));
    assert!(matches!(Category::from_reader(&mut reader), Err(CategoryError::BitReaderError(_))));
    assert!(matches!(Combo::from_reader(&mut reader), Err(ComboError::BitReaderError(_))));
}

#[test]
fn readers_tell_what_has_no_meaning() {
    let bytes = [0x2A << 2, 0xFF, 0xFF, 0x02];
    let mut reader = BitReader::new(&bytes);
    assert_eq!(SlotId::from_reader(&mut reader), Err(SlotIdError::NonExistentSlotId));
    reader.skip(2).unwrap();
    assert!(matches!(Combo::from_reader(&mut reader), Err(ComboError::InvalidVehicleId)));
    reader.skip(4).unwrap();
    assert_eq!(Category::from_reader(&mut reader), Err(CategoryError::NonexistentCategory));
    // a small kart and a large character
    let mut reader = BitReader::new(&[0x01, 0x30]);
    assert!(matches!(Combo::from_reader(&mut reader), Err(ComboError::IncongruentWeightClasses)));
}
