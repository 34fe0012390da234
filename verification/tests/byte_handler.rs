use rkg_utils::byte_handler::{ByteHandler, ByteHandlerError};

#[test]
fn view_reads_bytes_most_significant_first() {
    let handler = ByteHandler::from_bytes(&[0x12, 0x34, 0x56, 0x78]).unwrap();
    assert_eq!(handler.copy_dword(), 0x1234_5678);
    assert_eq!(handler.copy_byte(0), 0x12);
    assert_eq!(handler.copy_byte(1), 0x34);
    assert_eq!(handler.copy_byte(2), 0x56);
    assert_eq!(handler.copy_byte(3), 0x78);
    assert_eq!(handler.copy_word(0), 0x1234);
    assert_eq!(handler.copy_word(1), 0x5678);
}

#[test]
fn shorter_views_are_padded_in_front() {
    let three = ByteHandler::from_bytes(&[0xAB, 0xCD, 0xEF]).unwrap();
    assert_eq!(three.copy_dword(), 0x00AB_CDEF);
    assert_eq!(three.copy_byte(0), 0);
    assert_eq!(three.copy_byte(1), 0xAB);
    assert_eq!(three.copy_byte(2), 0xCD);
    assert_eq!(three.copy_byte(3), 0xEF);

    let two = ByteHandler::from_bytes(&[0xAB, 0xCD]).unwrap();
    assert_eq!(two.copy_dword(), 0x0000_ABCD);
    assert_eq!(two.copy_word(0), 0);
    assert_eq!(two.copy_word(1), 0xABCD);

    let one = ByteHandler::from_bytes(&[0x80]).unwrap();
    assert_eq!(one.copy_dword(), 0x80);
    assert_eq!(one.copy_byte(3), 0x80);

    let none = ByteHandler::from_bytes(&[]).unwrap();
    assert_eq!(none.copy_dword(), 0);
}

#[test]
fn source_bytes_are_read_back_for_every_length() {
    let source = [0x9Au8, 0x01, 0xFF, 0x5C];
    for len in 1..=4usize {
        let handler = ByteHandler::from_bytes(&source[..len]).unwrap();
        for i in 0..4usize {
            let expected = if i >= 4 - len { source[i - (4 - len)] } else { 0 };
            assert_eq!(handler.copy_byte(i), expected, "length {} byte {}", len, i);
        }
        for w in 0..2usize {
            let expected = (handler.copy_byte(2 * w) as u16) << 8 | handler.copy_byte(2 * w + 1) as u16;
            assert_eq!(handler.copy_word(w), expected);
        }
    }
}

#[test]
fn bits_are_counted_from_the_right() {
    let source = [0b1000_0001u8, 0b0100_0010];
    let handler = ByteHandler::from_bytes(&source).unwrap();
    // bit 0 is the last bit of the last byte
    assert!(!handler.read_bool(0));
    assert!(handler.read_bool(1));
    assert!(handler.read_bool(6));
    assert!(handler.read_bool(8));
    assert!(handler.read_bool(15));
    assert!(!handler.read_bool(14));
    for n in 0..16u8 {
        let byte = source[1 - (n / 8) as usize];
        assert_eq!(handler.read_bool(n), byte >> (n % 8) & 1 == 1, "bit {}", n);
    }
    // above the source bytes the word is clear
    for n in 16..32u8 {
        assert!(!handler.read_bool(n));
    }
}

#[test]
fn indices_out_of_range_give_zero() {
    let handler = ByteHandler::from_bytes(&[0xFF, 0xFF, 0xFF, 0xFF]).unwrap();
    assert_eq!(handler.copy_byte(4), 0);
    assert_eq!(handler.copy_byte(usize::MAX), 0);
    assert_eq!(handler.copy_word(2), 0);
    assert_eq!(handler.copy_word(100), 0);
    assert!(!handler.read_bool(32));
    assert!(!handler.read_bool(255));
    assert!(handler.read_bool(31));
}

#[test]
fn more_than_four_bytes_are_refused() {
    assert_eq!(
        ByteHandler::from_bytes(&[1, 2, 3, 4, 5]).unwrap_err(),
        ByteHandlerError::ConversionErrorTooLong
    );
    let slice: &[u8] = &[0; 9];
    assert_eq!(ByteHandler::try_from(slice).unwrap_err(), ByteHandlerError::ConversionErrorTooLong);
    let slice: &[u8] = &[0xDE, 0xAD];
    assert_eq!(ByteHandler::try_from(slice).unwrap().copy_dword(), 0xDEAD);
}

#[test]
fn shifts_lose_the_bits_that_fall_off() {
    let mut handler = ByteHandler::from(0xF000_000Fu32);
    handler.shift_right(4);
    assert_eq!(handler.copy_dword(), 0x0F00_0000);
    handler.shift_left(8);
    assert_eq!(handler.copy_dword(), 0);

    let mut handler = ByteHandler::from(0x8000_0001u32);
    handler.shift_left(1);
    assert_eq!(handler.copy_dword(), 2);
    handler.shift_left(0);
    assert_eq!(handler.copy_dword(), 2);
    handler.shift_right(0);
    assert_eq!(handler.copy_dword(), 2);

    let mut handler = ByteHandler::from(0xFFFF_FFFFu32);
    handler.shift_right(31);
    assert_eq!(handler.copy_dword(), 1);
    let mut handler = ByteHandler::from(0xFFFF_FFFFu32);
    handler.shift_left(31);
    assert_eq!(handler.copy_dword(), 0x8000_0000);
}

#[test]
fn shifts_by_the_whole_word_or_more_clear_it() {
    for d in [32u8, 33, 64, 255] {
        let mut handler = ByteHandler::from(0xFFFF_FFFFu32);
        handler.shift_right(d);
        assert_eq!(handler.copy_dword(), 0);
        let mut handler = ByteHandler::from(0xFFFF_FFFFu32);
        handler.shift_left(d);
        assert_eq!(handler.copy_dword(), 0);
    }
}

#[test]
fn fields_are_taken_by_place_and_width() {
    let handler = ByteHandler::from_bytes(&[0x02, 0x0F, 0x88]).unwrap();
    assert_eq!(handler.copy_bits(17, 7), 1);
    assert_eq!(handler.copy_bits(10, 7), 3);
    assert_eq!(handler.copy_bits(0, 10), 904);
    assert_eq!(handler.copy_bits(0, 32), 0x020F88);
    assert_eq!(handler.copy_bits(0, 40), 0x020F88);
    assert_eq!(handler.copy_bits(32, 8), 0);
    assert_eq!(handler.copy_bits(4, 0), 0);
}

#[test]
fn views_of_numbers_hold_the_numbers() {
    assert_eq!(ByteHandler::from(0x7Fu8).copy_dword(), 0x7F);
    assert_eq!(ByteHandler::from(0xBEEFu16).copy_dword(), 0xBEEF);
    assert_eq!(ByteHandler::from(0xBEEFu16).copy_word(1), 0xBEEF);
    assert_eq!(ByteHandler::from(0xDEAD_BEEFu32).copy_word(0), 0xDEAD);
    assert_eq!(ByteHandler::from([0x12u8, 0x34, 0x56, 0x78]).copy_dword(), 0x1234_5678);
    assert_eq!(ByteHandler::from([0x12u8, 0x34, 0x56]).copy_dword(), 0x12_3456);
    assert_eq!(ByteHandler::from([0x12u8, 0x34]).copy_dword(), 0x1234);
    assert_eq!(ByteHandler::from([0x1234u16, 0x5678]).copy_dword(), 0x1234_5678);
    let handler = ByteHandler::over(&[9, 8, 7, 6, 5, 4], 1, 4);
    assert_eq!(handler.copy_dword(), 0x080706);
}
