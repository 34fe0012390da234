use rkg_utils::input_data::yaz1::{decompress_block, yaz1_decompress};

fn container(size: u32, stream: &[u8]) -> Vec<u8> {
    let mut data = vec![0x59, 0x61, 0x7A, 0x31];
    data.extend_from_slice(&size.to_be_bytes());
    data.extend_from_slice(&[0; 8]);
    data.extend_from_slice(stream);
    data
}

#[test]
fn literals_are_copied() {
    // one group: eight literal bytes
    let stream = [0xFF, 1, 2, 3, 4, 5, 6, 7, 8];
    assert_eq!(yaz1_decompress(&container(8, &stream)), Some(vec![1, 2, 3, 4, 5, 6, 7, 8]));
    // the second group is opened once the first is used up
    let stream = [0xFF, 1, 2, 3, 4, 5, 6, 7, 8, 0x80, 9];
    assert_eq!(yaz1_decompress(&container(9, &stream)), Some(vec![1, 2, 3, 4, 5, 6, 7, 8, 9]));
}

#[test]
fn back_reference_repeats_what_was_written() {
    // "abc", then nine bytes from three bytes back: the copy runs into itself
    let stream = [0b1110_0000, b'a', b'b', b'c', 0x70, 0x02];
    let out = yaz1_decompress(&container(12, &stream)).unwrap();
    assert_eq!(out, b"abcabcabcabc".to_vec());
    assert_eq!(out.len(), 12);
}

#[test]
fn back_reference_of_one_byte_makes_a_run() {
    // one literal, then 17 copies of the last byte: the longest short form
    let stream = [0b1000_0000, 0x5A, 0xF0, 0x00];
    assert_eq!(yaz1_decompress(&container(18, &stream)), Some(vec![0x5A; 18]));
}

#[test]
fn long_back_reference_takes_a_third_byte() {
    // a length nibble of zero: the length is the third byte and 0x12
    let stream = [0b1000_0000, 7, 0x00, 0x00, 0x00];
    assert_eq!(yaz1_decompress(&container(19, &stream)), Some(vec![7; 19]));
    let stream = [0b1000_0000, 7, 0x00, 0x00, 0xFF];
    assert_eq!(yaz1_decompress(&container(1 + 0xFF + 0x12, &stream)), Some(vec![7; 1 + 0xFF + 0x12]));
}

#[test]
fn distance_uses_twelve_bits() {
    // 0x101 = 257 literal bytes, then a copy of three bytes from 0x101 back
    let mut stream = Vec::new();
    let mut expected = Vec::new();
    for group in 0..33 {
        stream.push(0xFF);
        for i in 0..8 {
            if expected.len() < 257 {
                let byte = (group * 8 + i) as u8;
                stream.push(byte);
                expected.push(byte);
            }
        }
    }
    // the last group holds one literal only; its second bit is the copy
    let at = stream.len() - 2;
    stream[at] = 0b1000_0000;
    stream.extend_from_slice(&[0x11, 0x00]);
    expected.extend_from_slice(&[0, 1, 2]);
    assert_eq!(yaz1_decompress(&container(260, &stream)), Some(expected));
}

#[test]
fn back_reference_before_the_start_is_an_error() {
    // nothing is written yet
    let stream = [0b0000_0000, 0x10, 0x00];
    assert_eq!(yaz1_decompress(&container(3, &stream)), None);
    // two bytes are written, the reference reaches three back
    let stream = [0b1100_0000, 1, 2, 0x10, 0x02];
    assert_eq!(yaz1_decompress(&container(5, &stream)), None);
    // two back is fine
    let stream = [0b1100_0000, 1, 2, 0x10, 0x01];
    assert_eq!(yaz1_decompress(&container(5, &stream)), Some(vec![1, 2, 1, 2, 1]));
}

#[test]
fn cut_off_stream_is_an_error() {
    assert_eq!(yaz1_decompress(&container(1, &[])), None);
    assert_eq!(yaz1_decompress(&container(2, &[0xFF, 1])), None);
    assert_eq!(yaz1_decompress(&container(4, &[0x80, 1, 0x10])), None);
    assert_eq!(yaz1_decompress(&container(20, &[0x80, 1, 0x00, 0x00])), None);
}

#[test]
fn length_other_than_declared_is_an_error() {
    // the copy carries the output past the declared size
    let stream = [0b1000_0000, 0x5A, 0xF0, 0x00];
    assert_eq!(yaz1_decompress(&container(17, &stream)), None);
    assert_eq!(decompress_block(&container(17, &stream), 16, 17), Some(vec![0x5A; 18]));
}

#[test]
fn header_is_checked() {
    assert_eq!(yaz1_decompress(&[]), None);
    assert_eq!(yaz1_decompress(b"Yaz1\0\0\0\0"), None);
    let mut data = container(1, &[0x80, 1]);
    data[3] = b'0';
    assert_eq!(yaz1_decompress(&data), None);
    // nothing to unpack
    assert_eq!(yaz1_decompress(&container(0, &[])), Some(vec![]));
}

#[test]
fn block_is_read_from_its_offset() {
    let data = [0xEE, 0xEE, 0xC0, 4, 5];
    assert_eq!(decompress_block(&data, 2, 2), Some(vec![4, 5]));
    assert_eq!(decompress_block(&data, 2, 0), Some(vec![]));
    assert_eq!(decompress_block(&data, 5, 1), None);
    assert_eq!(decompress_block(&data, 99, 1), None);
}
