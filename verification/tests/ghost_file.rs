use rkg_utils::ctgp_metadata::CTGPMetadataError;
use rkg_utils::ghost_file::{GhostFile, GhostFileError};
use rkg_utils::header::combo::Character;
use rkg_utils::header::HeaderError;
use rkg_utils::input_data::stick_input::StickInputError;
use rkg_utils::input_data::InputDataError;

/// Writes fields of a few bits each one behind the other, the first at the
/// top of the first byte.
struct Bits {
    bytes: Vec<u8>,
    used: usize,
}

impl Bits {
    fn new() -> Self {
        Bits { bytes: Vec::new(), used: 0 }
    }

    fn put(&mut self, value: u64, width: usize) {
        for i in (0..width).rev() {
            if self.used % 8 == 0 {
                self.bytes.push(0);
            }
            if value >> i & 1 == 1 {
                let last = self.bytes.len() - 1;
                self.bytes[last] |= 0x80 >> (self.used % 8);
            }
            self.used += 1;
        }
    }

    fn name(&mut self, text: &str) {
        let units: Vec<u16> = text.encode_utf16().collect();
        for i in 0..10 {
            self.put(*units.get(i).unwrap_or(&0) as u64, 16);
        }
    }
}

/// The Mii of the player JC.
fn jc_mii() -> Vec<u8> {
    let mut b = Bits::new();
    b.put(0, 1); // unknown
    b.put(0, 1); // is a girl
    b.put(1, 4); // month
    b.put(1, 5); // day
    b.put(4, 4); // favorite color
    b.put(0, 1); // favorite
    b.name("JC");
    b.put(127, 8); // height
    b.put(127, 8); // weight
    b.put(0x893EF2FB, 32);
    b.put(0x689EC992, 32);
    b.put(3, 3); // shape of the head
    b.put(1, 3); // skin
    b.put(0, 4); // marks of the face
    b.put(2, 3); // not known
    b.put(1, 1); // mingle off
    b.put(0, 1);
    b.put(0, 1); // downloaded
    b.put(0x21, 7); // hair
    b.put(2, 3);
    b.put(0, 1);
    b.put(4, 5); // not known
    b.put(0x17, 5); // eyebrows
    b.put(0, 1);
    b.put(5, 4);
    b.put(6, 6); // not known
    b.put(1, 3);
    b.put(4, 4);
    b.put(10, 5);
    b.put(2, 4);
    b.put(0x05, 6); // eyes
    b.put(0, 2);
    b.put(4, 3);
    b.put(9, 5);
    b.put(0, 3);
    b.put(0, 1);
    b.put(6, 3);
    b.put(1, 4);
    b.put(0, 5);
    b.put(2, 4); // nose
    b.put(0, 4);
    b.put(8, 5);
    b.put(6, 3); // not known
    b.put(0x0C, 5); // lips
    b.put(0, 2);
    b.put(7, 4);
    b.put(6, 5);
    b.put(0, 4); // glasses
    b.put(0, 3);
    b.put(0, 1);
    b.put(4, 3);
    b.put(10, 5);
    b.put(0, 2); // mustache and beard
    b.put(0, 2);
    b.put(0, 3);
    b.put(4, 4);
    b.put(10, 5);
    b.put(0, 1); // mole
    b.put(4, 4);
    b.put(20, 5);
    b.put(2, 5);
    b.put(0, 1);
    b.name("JC");
    assert_eq!(b.bytes.len(), 0x4A);
    b.bytes
}

/// The header of the ghost of JC on Luigi Circuit.
fn jc_header() -> Vec<u8> {
    let mut b = Bits::new();
    for byte in b"RKGD" {
        b.put(*byte as u64, 8);
    }
    b.put(1, 7); // 01:03.904
    b.put(3, 7);
    b.put(904, 10);
    b.put(0x08, 6); // Luigi Circuit
    b.put(0, 2);
    b.put(0x1A, 6); // Wario Bike
    b.put(0x13, 6); // King Boo
    b.put(25, 7); // 2025-11-12
    b.put(11, 4);
    b.put(12, 5);
    b.put(2, 4); // Classic Controller
    b.put(0, 4);
    b.put(1, 1); // compressed
    b.put(0, 2);
    b.put(0x26, 7); // expert staff ghost
    b.put(1, 1); // automatic drift
    b.put(0, 1);
    b.put(1856, 16);
    b.put(3, 8); // laps
    for (seconds, milliseconds) in [(25, 540), (19, 127), (19, 237)] {
        b.put(0, 7);
        b.put(seconds, 7);
        b.put(milliseconds, 10);
    }
    while b.bytes.len() < 0x34 {
        b.put(0, 8);
    }
    b.put(0xFF, 8); // no country
    b.put(0xFF, 8);
    b.put(0xFFFF, 16);
    b.put(0, 32);
    let mii = jc_mii();
    for byte in &mii {
        b.put(*byte as u64, 8);
    }
    b.put(0x06F4, 16); // the checksum of the Mii
    assert_eq!(b.bytes.len(), 0x88);
    b.bytes
}

/// The streams of a short race.
fn streams() -> Vec<u8> {
    let mut data = vec![0, 2, 0, 1, 0, 1, 0, 0];
    data.extend_from_slice(&[0x01, 100, 0x41, 100, 0x77, 200, 0x00, 200]);
    data
}

fn packed(data: &[u8]) -> Vec<u8> {
    let mut out = vec![0, 0, 0, 0, 0x59, 0x61, 0x7A, 0x31];
    out.extend_from_slice(&(data.len() as u32).to_be_bytes());
    out.extend_from_slice(&[0; 8]);
    for group in data.chunks(8) {
        out.push(0xFF);
        out.extend_from_slice(group);
    }
    out
}

/// A footer of CTGP of version 7 with nothing in it but what it must have.
fn footer() -> Vec<u8> {
    let mut footer = vec![0u8; 0xE0];
    footer[0xD3] = 7;
    footer[0xD4..0xD8].copy_from_slice(&0xE0u32.to_be_bytes());
    footer[0xD8..0xDC].copy_from_slice(b"CKGD");
    footer
}

fn header_for(length: u16) -> Vec<u8> {
    let mut header = jc_header();
    header[0x0E..0x10].copy_from_slice(&length.to_be_bytes());
    header
}

#[test]
fn ghost_of_the_game_ends_in_a_checksum() {
    let mut file = header_for(16);
    file.extend_from_slice(&streams());
    file.extend_from_slice(&[0xDE, 0xAD, 0xBE, 0xEF]);
    let ghost = GhostFile::new(&file).unwrap();
    assert_eq!(ghost.header().combo().character(), Character::KingBoo);
    assert_eq!(ghost.header().mii_crc16(), 0x06F4);
    assert!(ghost.header().verify_mii_crc16());
    assert_eq!(ghost.input_data().face_input_count(), 2);
    assert_eq!(ghost.input_data().face_inputs().len(), 1);
    assert_eq!(ghost.input_data().inputs().len(), 1);
    assert!(ghost.ctgp_metadata().is_none());
}

#[test]
fn ghost_of_ctgp_ends_in_a_footer() {
    let mut file = header_for(16);
    file.extend_from_slice(&packed(&streams()));
    file.extend_from_slice(&footer());
    let ghost = GhostFile::new(&file).unwrap();
    assert_eq!(ghost.input_data().face_inputs()[0].frame_duration(), 200);
    let footer = ghost.ctgp_metadata().unwrap();
    assert_eq!(footer.metadata_size(), 0xE0);
    assert_eq!(footer.pause_frames(), &vec![101]);
    assert_eq!(footer.exact_finish_time().to_string(), "01:03.904000000000");
    assert_eq!(footer.exact_lap_times().len(), 3);
}

#[test]
fn packed_input_must_have_the_length_that_the_header_tells() {
    let mut file = header_for(17);
    file.extend_from_slice(&packed(&streams()));
    file.extend_from_slice(&footer());
    assert!(matches!(GhostFile::new(&file), Err(GhostFileError::InputLengthMismatch)));
    // input that is not packed may be followed by padding
    let mut file = header_for(16);
    file.extend_from_slice(&streams());
    file.extend_from_slice(&[0; 100]);
    file.extend_from_slice(&[1, 2, 3, 4]);
    assert!(GhostFile::new(&file).is_ok());
}

#[test]
fn ghost_errors_are_told_apart() {
    assert!(matches!(GhostFile::new(&[]), Err(GhostFileError::TooShort)));
    assert!(matches!(GhostFile::new(&jc_header()), Err(GhostFileError::TooShort)));
    let mut file = jc_header();
    file.extend_from_slice(&[0; 3]);
    assert!(matches!(GhostFile::new(&file), Err(GhostFileError::TooShort)));

    let mut file = header_for(16);
    file[0] = b'X';
    file.extend_from_slice(&streams());
    file.extend_from_slice(&[0; 4]);
    assert!(matches!(GhostFile::new(&file), Err(GhostFileError::HeaderError(HeaderError::NotRKGD))));

    // the checksum alone is no input region
    let mut file = header_for(16);
    file.extend_from_slice(&[0; 4]);
    assert!(matches!(
        GhostFile::new(&file),
        Err(GhostFileError::InputDataError(InputDataError::NotEnoughData))
    ));

    let mut broken = streams();
    broken[12] = 0xF7;
    let mut file = header_for(16);
    file.extend_from_slice(&broken);
    file.extend_from_slice(&[0; 4]);
    assert!(matches!(
        GhostFile::new(&file),
        Err(GhostFileError::InputDataError(InputDataError::StickInputError(
            StickInputError::InvalidStickInput
        )))
    ));

    // a category that does not exist
    let mut bad_footer = footer();
    bad_footer[0x54 + 0x7C] = 0x55;
    let mut file = header_for(16);
    file.extend_from_slice(&streams());
    file.extend_from_slice(&bad_footer);
    assert!(matches!(
        GhostFile::new(&file),
        Err(GhostFileError::CTGPMetadataError(CTGPMetadataError::CategoryError(_)))
    ));

    // a footer that tells of more bytes than the file has behind its header
    let mut long_footer = footer();
    long_footer[0xD4..0xD8].copy_from_slice(&0x1000u32.to_be_bytes());
    let mut file = header_for(16);
    file.extend_from_slice(&streams());
    file.extend_from_slice(&long_footer);
    assert!(matches!(GhostFile::new(&file), Err(GhostFileError::TooShort)));
}
