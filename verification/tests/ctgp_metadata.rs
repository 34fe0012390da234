use rkg_utils::ctgp_metadata::category::{Category, CategoryError};
use rkg_utils::ctgp_metadata::exact_finish_time::ExactFinishTime;
use rkg_utils::ctgp_metadata::subtraction::correction_in_picoseconds;
use rkg_utils::ctgp_metadata::{
    contains_ctgp_pause, decode_footer_length_and_tag, CTGPMetadata, CTGPMetadataError,
};
use rkg_utils::input_data::InputDataError;

/// A time of the header in its three bytes.
fn time_bytes(minutes: u32, seconds: u32, milliseconds: u32) -> [u8; 3] {
    let word = minutes << 17 | seconds << 10 | milliseconds;
    [(word >> 16) as u8, (word >> 8) as u8, word as u8]
}

struct GhostFile {
    version: u8,
    finish: (u32, u32, u32),
    finish_bits: u32,
    laps: Vec<((u32, u32, u32), u32)>,
    input: Vec<u8>,
    shrooms: [u8; 3],
    category: u8,
}

impl GhostFile {
    fn new() -> Self {
        GhostFile {
            version: 7,
            finish: (0, 58, 648),
            finish_bits: 0xBC36_4E3C,
            laps: vec![((0, 19, 607), 0), ((0, 19, 623), 0), ((0, 19, 418), 0)],
            input: vec![0, 2, 0, 0, 0, 0, 0, 0, 0x01, 10, 0x41, 20],
            shrooms: [3, 3, 3],
            category: 0x00,
        }
    }

    fn security(&self) -> usize {
        if self.version < 7 { 0x44 } else { 0x54 }
    }

    fn bytes(&self) -> Vec<u8> {
        let mut data = vec![0u8; 0x88];
        data[0..4].copy_from_slice(b"RKGD");
        data[4..7].copy_from_slice(&time_bytes(self.finish.0, self.finish.1, self.finish.2));
        data[0x10] = self.laps.len() as u8;
        for (i, (time, _)) in self.laps.iter().enumerate() {
            if i < 10 {
                data[0x11 + 3 * i..0x14 + 3 * i].copy_from_slice(&time_bytes(time.0, time.1, time.2));
            }
        }
        data.extend_from_slice(&self.input);

        let s = self.security();
        let mut footer = vec![0u8; s + 0x8C];
        for i in 0..s {
            footer[i] = 0xA0 ^ i as u8;
        }
        for i in 0..0x14 {
            footer[s + i] = 0x10 + i as u8;
        }
        footer[s + 0x14..s + 0x1C].copy_from_slice(&0xFD31_97B0_7D9D_2B84u64.to_be_bytes());
        footer[s + 0x1C..s + 0x20].copy_from_slice(&self.finish_bits.to_be_bytes());
        footer[s + 0x20..s + 0x24].copy_from_slice(&[1, 3, 0, 9]);
        // a doubtful crossing in the first and in the third lap
        footer[s + 0x24..s + 0x26].copy_from_slice(&0x0140u16.to_be_bytes());
        for (i, (_, bits)) in self.laps.iter().enumerate() {
            if i < 10 {
                footer[s + 0x5C - 4 * i..s + 0x60 - 4 * i].copy_from_slice(&bits.to_be_bytes());
            }
        }
        footer[s + 0x60..s + 0x68].copy_from_slice(&790_000_000_000_000_123u64.to_be_bytes());
        footer[s + 0x68..s + 0x70].copy_from_slice(&789_999_996_000_000_000u64.to_be_bytes());
        footer[s + 0x70..s + 0x78].copy_from_slice(&60_750_000u64.to_be_bytes());
        footer[s + 0x78] = 0b0000_1010;
        footer[s + 0x79..s + 0x7C].copy_from_slice(&self.shrooms);
        footer[s + 0x7C] = self.category;
        footer[s + 0x7D] = 0b1010_0101;
        footer[s + 0x7F] = self.version;
        let len = footer.len() as u32;
        footer[s + 0x80..s + 0x84].copy_from_slice(&len.to_be_bytes());
        footer[s + 0x84..s + 0x88].copy_from_slice(b"CKGD");
        data.extend_from_slice(&footer);
        data
    }
}

/// The picoseconds of a correction by the arithmetic of the machine, in
/// numbers wide enough to hold the product exactly.
fn correction_by_machine(bits: u32) -> i64 {
    ((f32::from_bits(bits) as f64) * 1e+9).floor() as i64
}

fn exact_by_machine(milliseconds: u32, correction: i128) -> u64 {
    (milliseconds as i128 * 1_000_000_000 + correction) as u64
}

#[test]
fn test_exact_finish_time() {
    // shown are 00:58.648 and the laps 19.607, 19.623 and 19.418; the
    // corrections of the laps run on from lap to lap
    let mut ghost = GhostFile::new();
    ghost.laps = vec![
        ((0, 19, 607), 0x3BE3_DD80),
        ((0, 19, 623), 0x3F15_AEA5),
        ((0, 19, 418), 0xBC36_4E3B),
    ];
    let ctgp_metadata = CTGPMetadata::new(&ghost.bytes()).expect("Failed to read CTGP metadata");

    assert_eq!(ctgp_metadata.exact_finish_time().to_string(), "00:58.647988872949");
    assert_eq!(ctgp_metadata.exact_lap_times()[0].to_string(), "00:19.607006953895");
    assert_eq!(ctgp_metadata.exact_lap_times()[1].to_string(), "00:19.623577742219");
    assert_eq!(ctgp_metadata.exact_lap_times()[2].to_string(), "00:19.417404176835");
    // the laps make the finish time
    let sum: u64 = ctgp_metadata.exact_lap_times().iter().map(|lap| lap.picoseconds()).sum();
    assert_eq!(sum, 1_647_988_872_949);
}

#[test]
fn exact_finish_time_is_the_time_shown_and_its_correction() {
    for (bits, shown, expected) in [
        (0xBC36_4E3Cu32, 648u32, 647_988_872_949u64),
        (0xBC36_4E3B, 648, 647_988_872_949),
        (0x3E99_999A, 648, 648_300_000_011),
        (0x0000_0000, 904, 904_000_000_000),
        (0x8000_0000, 904, 904_000_000_000),
        (0x3F00_0000, 10, 10_500_000_000),
        (0xBF00_0000, 10, 9_500_000_000),
    ] {
        let mut ghost = GhostFile::new();
        ghost.finish = (1, 3, shown);
        ghost.finish_bits = bits;
        let footer = CTGPMetadata::new(&ghost.bytes()).unwrap();
        assert_eq!(footer.exact_finish_time(), ExactFinishTime::new(1, 3, expected));
        assert_eq!(
            footer.exact_finish_time().picoseconds(),
            exact_by_machine(shown, correction_by_machine(bits) as i128)
        );
    }
}

#[test]
fn correction_is_the_floor_of_the_exact_product() {
    // -0.011127050034701824 milliseconds: the product is no whole number,
    // and the floor of a negative one lies below it
    assert_eq!(correction_in_picoseconds(0xBC36_4E3B), -11_127_051);
    // the next number down, -0.011127050966024399 milliseconds
    assert_eq!(correction_in_picoseconds(0xBC36_4E3C), -11_127_051);
    assert_eq!(correction_in_picoseconds(0x3C36_4E3B), 11_127_050);
    // 0.300000011920928955078125 milliseconds: the product has more bits
    // than a number of 32 bits holds, and none of them is lost
    assert_eq!(correction_in_picoseconds(0x3E99_999A), 300_000_011);
    assert_eq!(correction_in_picoseconds(0xBE99_999A), -300_000_012);
    // the finish time and a lap are corrected alike
    let mut ghost = GhostFile::new();
    ghost.finish = (0, 58, 648);
    ghost.finish_bits = 0x3E99_999A;
    ghost.laps = vec![((0, 58, 648), 0x3E99_999A)];
    let footer = CTGPMetadata::new(&ghost.bytes()).unwrap();
    assert_eq!(footer.exact_finish_time().picoseconds(), 648_300_000_011);
    assert_eq!(footer.exact_lap_times()[0].picoseconds(), 648_300_000_011);
}

#[test]
fn corrections_of_whole_numbers_are_exact() {
    assert_eq!(correction_in_picoseconds(0), 0);
    assert_eq!(correction_in_picoseconds(0x8000_0000), 0);
    assert_eq!(correction_in_picoseconds(1.0f32.to_bits()), 1_000_000_000);
    assert_eq!(correction_in_picoseconds((-1.0f32).to_bits()), -1_000_000_000);
    assert_eq!(correction_in_picoseconds(0.5f32.to_bits()), 500_000_000);
    assert_eq!(correction_in_picoseconds((-0.5f32).to_bits()), -500_000_000);
    assert_eq!(correction_in_picoseconds(2.25f32.to_bits()), 2_250_000_000);
    // the smallest numbers still are something below zero
    assert_eq!(correction_in_picoseconds(1), 0);
    assert_eq!(correction_in_picoseconds(0x8000_0001), -1);
}

#[test]
fn corrections_out_of_range_go_to_the_end_of_the_range() {
    for bits in [0x7F80_0000u32, 0x7F7F_FFFF, 1e30f32.to_bits(), 9.3e9f32.to_bits()] {
        assert_eq!(correction_in_picoseconds(bits), i64::MAX);
        assert_eq!(correction_in_picoseconds(bits | 0x8000_0000), i64::MIN);
    }
    // what is no number counts as nothing
    for bits in [0x7FC0_0000u32, 0xFFC0_0000, 0x7F80_0001, 0xFFFF_FFFF] {
        assert_eq!(correction_in_picoseconds(bits), 0);
    }
    // the largest millisecond counts that still fit
    let bits = 9.2e9f32.to_bits();
    assert_eq!(correction_in_picoseconds(bits), correction_by_machine(bits));
    assert!(correction_in_picoseconds(bits) < i64::MAX);
}

#[test]
fn corrections_agree_with_the_arithmetic_of_the_machine() {
    let mut checked = 0u32;
    let mut check = |bits: u32| {
        assert_eq!(correction_in_picoseconds(bits), correction_by_machine(bits), "{:#010X}", bits);
        checked += 1;
    };
    // every exponent, with a choice of fractions
    for exponent in 0..=255u32 {
        for fraction in [
            0u32, 1, 2, 3, 0x40_0000, 0x3F_FFFF, 0x40_0001, 0x7F_FFFF, 0x7F_FFFE, 0x12_3456, 0x55_5555,
            0x2A_AAAA, 0x19_999A, 0x4C_CCCD, 0x00_0100, 0x6B_7A11,
        ] {
            check(exponent << 23 | fraction);
            check(0x8000_0000 | exponent << 23 | fraction);
        }
    }
    // corrections as they occur: up to some milliseconds
    let mut state = 0x2545_F491u32;
    for _ in 0..200_000 {
        state = state.wrapping_mul(1_664_525).wrapping_add(1_013_904_223);
        check(state);
        let small = 0x3000_0000 + (state >> 4) % 0x1200_0000;
        check(small);
        check(small | 0x8000_0000);
    }
    assert!(checked > 600_000);
}

#[test]
fn lap_corrections_add_up() {
    // the stored corrections run on from lap to lap: 0.25, 0.75 and 0.5
    // milliseconds make 0.25, 0.5 and -0.25
    let mut ghost = GhostFile::new();
    ghost.laps = vec![
        ((0, 20, 100), 0.25f32.to_bits()),
        ((0, 21, 200), 0.75f32.to_bits()),
        ((0, 22, 300), 0.5f32.to_bits()),
    ];
    let footer = CTGPMetadata::new(&ghost.bytes()).unwrap();
    let laps = footer.exact_lap_times();
    assert_eq!(laps[0], ExactFinishTime::new(0, 20, 100_250_000_000));
    assert_eq!(laps[1], ExactFinishTime::new(0, 21, 200_500_000_000));
    assert_eq!(laps[2], ExactFinishTime::new(0, 22, 299_750_000_000));
}

#[test]
fn lap_carry_changes_over_each_time_it_comes_off() {
    let mut ghost = GhostFile::new();
    ghost.laps = vec![
        ((0, 20, 100), 1.5f32.to_bits()),
        ((0, 21, 200), 3.0f32.to_bits()),
        ((0, 22, 300), 2.25f32.to_bits()),
        ((0, 23, 400), 3.5f32.to_bits()),
        ((0, 24, 500), 5.0f32.to_bits()),
    ];
    let footer = CTGPMetadata::new(&ghost.bytes()).unwrap();
    let laps = footer.exact_lap_times();
    // more than a millisecond is left and the carry is nothing
    assert_eq!(laps[0].picoseconds(), 101_500_000_000);
    // 1.5 milliseconds are left and the carry of a millisecond comes off
    assert_eq!(laps[1].picoseconds(), 200_500_000_000);
    // a quarter of a millisecond is left: no carry
    assert_eq!(laps[2].picoseconds(), 300_250_000_000);
    // 1.25 milliseconds are left and the carry is nothing again
    assert_eq!(laps[3].picoseconds(), 401_250_000_000);
    // 1.5 milliseconds are left and the carry of a millisecond comes off
    assert_eq!(laps[4].picoseconds(), 500_500_000_000);
    assert_eq!(laps[4].to_string(), "00:24.500500000000");
}

#[test]
fn exact_time_below_zero_wraps_around() {
    let mut ghost = GhostFile::new();
    ghost.laps = vec![((0, 20, 0), (-0.5f32).to_bits())];
    ghost.finish = (0, 20, 0);
    ghost.finish_bits = (-0.5f32).to_bits();
    let footer = CTGPMetadata::new(&ghost.bytes()).unwrap();
    assert_eq!(footer.exact_lap_times()[0].picoseconds(), (-500_000_000i64) as u64);
    assert_eq!(footer.exact_finish_time().picoseconds(), u64::MAX - 499_999_999);
    // the farthest corrections
    ghost.laps = vec![((0, 20, 1), 0x7F80_0000), ((0, 20, 1), 0xFF80_0000)];
    let footer = CTGPMetadata::new(&ghost.bytes()).unwrap();
    assert_eq!(footer.exact_lap_times()[0].picoseconds(), exact_by_machine(1, i64::MAX as i128));
    let second = i64::MIN as i128 - i64::MAX as i128;
    assert_eq!(footer.exact_lap_times()[1].picoseconds(), exact_by_machine(1, second));
}

#[test]
fn test_ctgp_metadata() {
    let ctgp_metadata = CTGPMetadata::new(&GhostFile::new().bytes()).expect("Failed to read CTGP metadata");

    let sha1: Vec<u8> = (0..0x14u8).map(|i| 0x10 + i).collect();
    assert_eq!(ctgp_metadata.track_sha1(), &sha1[..]);
    assert_eq!(
        ctgp_metadata.player_id().to_be_bytes(),
        [0xFD, 0x31, 0x97, 0xB0, 0x7D, 0x9D, 0x2B, 0x84]
    );
    let shroomstrat: [u8; 3] = [0, 0, 3];
    assert_eq!(ctgp_metadata.shroomstrat(), &shroomstrat);
}

#[test]
fn print_ctgp_metadata() {
    let ctgp_metadata = CTGPMetadata::new(&GhostFile::new().bytes()).expect("Failed to read CTGP metadata");

    assert_eq!(ctgp_metadata.security_data().len(), 0x54);
    assert_eq!(ctgp_metadata.security_data()[0], 0xA0);
    assert_eq!(ctgp_metadata.security_data()[0x53], 0xA0 ^ 0x53);
    assert_eq!(ctgp_metadata.ctgp_version(), Some([1, 3, 0, 9]));
    assert_eq!(ctgp_metadata.rtc_race_end(), 790_000_000_000_000_123);
    assert_eq!(ctgp_metadata.rtc_race_begins(), 789_999_996_000_000_000);
    assert_eq!(ctgp_metadata.rtc_time_paused(), 60_750_000);
    assert_eq!(ctgp_metadata.pause_frames(), &vec![11]);
    assert!(ctgp_metadata.my_stuff_enabled());
    assert!(!ctgp_metadata.my_stuff_used());
    assert!(ctgp_metadata.usb_gamecube_enabled());
    assert!(!ctgp_metadata.final_lap_dubious_intersection());
    assert_eq!(
        ctgp_metadata.lap_split_dubious_intersections().unwrap(),
        &[true, false, true]
    );
    assert_eq!(ctgp_metadata.category(), Category::NoGlitch);
    assert!(ctgp_metadata.cannoned());
    assert!(!ctgp_metadata.went_oob());
    assert!(ctgp_metadata.has_slowdown());
    assert!(!ctgp_metadata.has_rapidfire());
    assert!(!ctgp_metadata.dubious_ghost());
    assert!(ctgp_metadata.has_mii_data_replaced());
    assert!(!ctgp_metadata.has_name_replaced());
    assert!(ctgp_metadata.respawns());
    assert_eq!(ctgp_metadata.metadata_version(), 7);
    assert_eq!(ctgp_metadata.metadata_size(), 0xE0);
    println!("Exact finish time: {}", ctgp_metadata.exact_finish_time().to_string());
}

#[test]
fn older_footer_has_less_security_data() {
    let mut ghost = GhostFile::new();
    ghost.version = 6;
    let footer = CTGPMetadata::new(&ghost.bytes()).unwrap();
    assert_eq!(footer.security_data().len(), 0x44);
    assert_eq!(footer.metadata_size(), 0xD0);
    assert_eq!(footer.track_sha1()[0], 0x10);
    assert_eq!(footer.ctgp_version(), Some([1, 3, 0, 9]));
    assert_eq!(footer.exact_finish_time().to_string(), "00:58.647988872949");

    ghost.version = 1;
    let footer = CTGPMetadata::new(&ghost.bytes()).unwrap();
    assert_eq!(footer.ctgp_version(), None);
    assert!(footer.lap_split_dubious_intersections().is_none());
    assert_eq!(footer.metadata_version(), 1);
}

#[test]
fn pause_frames_are_counted_from_one() {
    let mut ghost = GhostFile::new();
    ghost.input = vec![0, 4, 0, 0, 0, 0, 0, 0, 0x41, 10, 0x01, 255, 0x40, 0, 0x45, 3];
    let footer = CTGPMetadata::new(&ghost.bytes()).unwrap();
    assert_eq!(footer.pause_frames(), &vec![1, 266, 266]);
    assert!(contains_ctgp_pause(0x40));
    assert!(contains_ctgp_pause(0xFF));
    assert!(!contains_ctgp_pause(0xBF));
}

#[test]
fn pause_frames_are_read_from_packed_input() {
    let mut ghost = GhostFile::new();
    let streams = [0u8, 2, 0, 0, 0, 0, 0, 0, 0x01, 7, 0x41, 20];
    let mut packed = vec![0, 0, 0, 0, 0x59, 0x61, 0x7A, 0x31, 0, 0, 0, 12, 0, 0, 0, 0, 0, 0, 0, 0];
    packed.push(0xFF);
    packed.extend_from_slice(&streams[..8]);
    packed.push(0xF0);
    packed.extend_from_slice(&streams[8..]);
    ghost.input = packed;
    let footer = CTGPMetadata::new(&ghost.bytes()).unwrap();
    assert_eq!(footer.pause_frames(), &vec![8]);

    ghost.input.pop();
    assert_eq!(
        CTGPMetadata::new(&ghost.bytes()).err(),
        Some(CTGPMetadataError::InputDataError(InputDataError::DecompressionFailed))
    );
}

#[test]
fn mushrooms_are_counted_by_lap() {
    let mut ghost = GhostFile::new();
    ghost.shrooms = [1, 3, 1];
    assert_eq!(CTGPMetadata::new(&ghost.bytes()).unwrap().shroomstrat(), &[2, 0, 1]);
    ghost.shrooms = [0, 2, 0];
    assert_eq!(CTGPMetadata::new(&ghost.bytes()).unwrap().shroomstrat(), &[0, 1, 0]);
    // a mushroom in a lap that was not driven is counted, and not shown
    ghost.shrooms = [10, 0, 0];
    assert_eq!(CTGPMetadata::new(&ghost.bytes()).unwrap().shroomstrat(), &[0, 0, 0]);
    ghost.shrooms = [1, 11, 0];
    assert_eq!(CTGPMetadata::new(&ghost.bytes()).err(), Some(CTGPMetadataError::ShroomstratLapInvalid));
}

#[test]
fn file_without_the_footer_is_told() {
    let mut data = GhostFile::new().bytes();
    assert_eq!(decode_footer_length_and_tag(&data), (true, 0xE0));
    let at = data.len() - 8;
    data[at] = b'R';
    assert_eq!(decode_footer_length_and_tag(&data), (false, 0));
    assert_eq!(CTGPMetadata::new(&data).err(), Some(CTGPMetadataError::NotCKGD));
    assert_eq!(CTGPMetadata::new(&[]).err(), Some(CTGPMetadataError::NotCKGD));
    assert_eq!(decode_footer_length_and_tag(&[]), (false, 0));
    // the 13 bytes that end a footer, and nothing else
    let tail = [7, 0, 0, 0, 9, b'C', b'K', b'G', b'D', 0, 0, 0, 0];
    assert_eq!(decode_footer_length_and_tag(&tail), (true, 9));
    assert_eq!(decode_footer_length_and_tag(&tail[1..]), (false, 0));
    assert_eq!(CTGPMetadata::new(&tail).err(), Some(CTGPMetadataError::TryFromSliceError));
}

#[test]
fn footer_of_a_wrong_length_is_refused() {
    let good = GhostFile::new().bytes();
    let size_at = good.len() - 12;
    // longer than what follows the header
    let mut data = good.clone();
    data[size_at..size_at + 4].copy_from_slice(&((good.len() - 0x88 + 1) as u32).to_be_bytes());
    assert_eq!(CTGPMetadata::new(&data).err(), Some(CTGPMetadataError::TryFromSliceError));
    // too short for its fields
    let mut data = good.clone();
    data[size_at..size_at + 4].copy_from_slice(&(0x54u32 + 0x7D).to_be_bytes());
    assert_eq!(CTGPMetadata::new(&data).err(), Some(CTGPMetadataError::TryFromSliceError));
    let mut data = good.clone();
    data[size_at..size_at + 4].copy_from_slice(&0xFFFF_FFFFu32.to_be_bytes());
    assert_eq!(CTGPMetadata::new(&data).err(), Some(CTGPMetadataError::TryFromSliceError));
}

#[test]
fn footer_errors_are_told_apart() {
    let mut ghost = GhostFile::new();
    ghost.laps = vec![((0, 1, 1), 0); 11];
    assert_eq!(CTGPMetadata::new(&ghost.bytes()).err(), Some(CTGPMetadataError::LapCountInvalid));

    let mut ghost = GhostFile::new();
    ghost.input = vec![0; 7];
    assert_eq!(
        CTGPMetadata::new(&ghost.bytes()).err(),
        Some(CTGPMetadataError::InputDataError(InputDataError::NotEnoughData))
    );
    ghost.input = vec![0, 3, 0, 0, 0, 0, 0, 0, 1, 1, 1, 1];
    assert_eq!(
        CTGPMetadata::new(&ghost.bytes()).err(),
        Some(CTGPMetadataError::InputDataError(InputDataError::NotEnoughData))
    );

    let mut ghost = GhostFile::new();
    ghost.category = 0x02;
    assert_eq!(
        CTGPMetadata::new(&ghost.bytes()).err(),
        Some(CTGPMetadataError::CategoryError(CategoryError::NonexistentCategory))
    );
    // the mushrooms are looked at before the category
    ghost.shrooms = [0, 0, 200];
    assert_eq!(CTGPMetadata::new(&ghost.bytes()).err(), Some(CTGPMetadataError::ShroomstratLapInvalid));
}

#[test]
fn ten_laps_fill_the_footer() {
    let mut ghost = GhostFile::new();
    ghost.laps = (0..10).map(|i| ((0, 10 + i, 5 * i), (0.125f32 * (i + 1) as f32).to_bits())).collect();
    let footer = CTGPMetadata::new(&ghost.bytes()).unwrap();
    let laps = footer.exact_lap_times();
    assert_eq!(laps.len(), 10);
    for (i, lap) in laps.iter().enumerate() {
        assert_eq!(lap.seconds(), 10 + i as u8);
        assert_eq!(lap.picoseconds(), 5_000_000_000 * i as u64 + 125_000_000);
    }
    assert_eq!(footer.lap_split_dubious_intersections().unwrap().len(), 10);
    assert_eq!(footer.shroomstrat().len(), 10);
}

#[test]
fn categories_have_their_codes() {
    assert_eq!(Category::try_from(0x00), Ok(Category::NoGlitch));
    assert_eq!(Category::try_from(0x01), Ok(Category::Glitch));
    assert_eq!(Category::try_from(0x13), Ok(Category::GlitchTAS));
    assert_eq!(Category::try_from(0x03), Ok(Category::NoGlitchTAS));
    assert_eq!(Category::try_from(0x23), Ok(Category::NoGlitchTAS));
    assert_eq!(Category::try_from(0x02), Err(CategoryError::NonexistentCategory));
    assert_eq!(u8::from(Category::NoGlitchTAS), 0x23);
    for category in [Category::NoGlitch, Category::Glitch, Category::NoGlitchTAS, Category::GlitchTAS] {
        assert_eq!(Category::try_from(u8::from(category)), Ok(category));
    }
}

#[test]
fn exact_times_show_twelve_digits() {
    assert_eq!(ExactFinishTime::new(0, 58, 647_988_872_949).to_string(), "00:58.647988872949");
    assert_eq!(ExactFinishTime::new(1, 2, 3).to_string(), "01:02.000000000003");
    assert_eq!(ExactFinishTime::new(0, 0, 0).to_string(), "00:00.000000000000");
    assert_eq!(ExactFinishTime::new(255, 255, u64::MAX).to_string(), "255:255.18446744073709551615");
    let time = ExactFinishTime::new(4, 5, 6);
    assert_eq!((time.minutes(), time.seconds(), time.picoseconds()), (4, 5, 6));
}
