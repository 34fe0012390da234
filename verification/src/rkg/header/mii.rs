//! The Mii of the player as it stands in the file, field by field and
//! unread: 74 bytes that are cut into fields of a few bits each, the first
//! field at the top of the first byte.

use vstd::prelude::*;
use vstd::slice::slice_subrange;
use bitreader::BitReader;
use bitreader::BitReaderError;
use crate::bit_reader::bit_of;
use crate::bit_reader::bits_value;
use crate::bit_reader::lemma_bit_of_view;
use crate::bit_reader::lemma_bits_value_of_view;
use crate::bit_reader::reader_bytes;
use crate::bit_reader::reader_limit;
use crate::bit_reader::reader_position;
use crate::byte_handler::bit_at;
use crate::byte_handler::field_at;
use crate::byte_handler::view_over;

verus! {

/// `char::from_u32`: the character of a number, unless the number is that
/// of a surrogate or lies beyond the last character.
pub assume_specification[ char::from_u32 ](i: u32) -> (r: Option<char>)
    ensures
        r == if i <= 0xD7FF || 0xE000 <= i <= 0x10FFFF {
            Some(i as char)
        } else {
            None::<char>
        },
;

/// `String::push`: the text gains one character at its end.
pub assume_specification[ String::push ](text: &mut String, ch: char)
    ensures
        final(text)@ == old(text)@.push(ch),
;

/// The number of bytes of a Mii.
pub const MII_LENGTH: usize = 0x4A;

pub struct Mii {
    /// One bit, from the top of byte 0x00.
    pub unknown1: bool,
    /// One bit, from bit 1 of byte 0x00, counted from the top.
    pub is_girl: bool,
    /// 4 bits, from bit 2 of byte 0x00, counted from the top.
    pub month: u8,
    /// 5 bits, from bit 6 of byte 0x00, counted from the top.
    pub day: u8,
    /// 4 bits, from bit 3 of byte 0x01, counted from the top.
    pub favorite_color: u8,
    /// One bit, from bit 7 of byte 0x01, counted from the top.
    pub is_favorite: bool,
    /// Ten characters of two bytes each, from byte 0x02 on.
    pub name: String,
    /// 8 bits, from the top of byte 0x16.
    pub height: u8,
    /// 8 bits, from the top of byte 0x17.
    pub weight: u8,
    /// 8 bits, from the top of byte 0x18.
    pub mii_id1: u8,
    /// 8 bits, from the top of byte 0x19.
    pub mii_id2: u8,
    /// 8 bits, from the top of byte 0x1a.
    pub mii_id3: u8,
    /// 8 bits, from the top of byte 0x1b.
    pub mii_id4: u8,
    /// 8 bits, from the top of byte 0x1c.
    pub system_id0: u8,
    /// 8 bits, from the top of byte 0x1d.
    pub system_id1: u8,
    /// 8 bits, from the top of byte 0x1e.
    pub system_id2: u8,
    /// 8 bits, from the top of byte 0x1f.
    pub system_id3: u8,
    /// 3 bits, from the top of byte 0x20.
    pub face_shape: u8,
    /// 3 bits, from bit 3 of byte 0x20, counted from the top.
    pub skin_color: u8,
    /// 4 bits, from bit 6 of byte 0x20, counted from the top.
    pub facial_feature: u8,
    /// 3 bits, from bit 2 of byte 0x21, counted from the top.
    pub unknown2: u8,
    /// One bit, from bit 5 of byte 0x21, counted from the top.
    pub mingle_off: bool,
    /// One bit, from bit 6 of byte 0x21, counted from the top.
    pub unknown3: bool,
    /// One bit, from bit 7 of byte 0x21, counted from the top.
    pub downloaded: bool,
    /// 7 bits, from the top of byte 0x22.
    pub hair_type: u8,
    /// 3 bits, from bit 7 of byte 0x22, counted from the top.
    pub hair_color: u8,
    /// One bit, from bit 2 of byte 0x23, counted from the top.
    pub hair_part_reversed: bool,
    /// 5 bits, from bit 3 of byte 0x23, counted from the top.
    pub unknown4: u8,
    /// 5 bits, from the top of byte 0x24.
    pub eyebrow_type: u8,
    /// One bit, from bit 5 of byte 0x24, counted from the top.
    pub unknown5: bool,
    /// 4 bits, from bit 6 of byte 0x24, counted from the top.
    pub eyebrow_rotation: u8,
    /// 6 bits, from bit 2 of byte 0x25, counted from the top.
    pub unknown6: u8,
    /// 3 bits, from the top of byte 0x26.
    pub eyebrow_color: u8,
    /// 4 bits, from bit 3 of byte 0x26, counted from the top.
    pub eyebrow_size: u8,
    /// 5 bits, from bit 7 of byte 0x26, counted from the top.
    pub eyebrow_vertical_pos: u8,
    /// 4 bits, from bit 4 of byte 0x27, counted from the top.
    pub eyebrow_horizontal_spacing: u8,
    /// 6 bits, from the top of byte 0x28.
    pub eye_type: u8,
    /// 2 bits, from bit 6 of byte 0x28, counted from the top.
    pub unknown7: u8,
    /// 3 bits, from the top of byte 0x29.
    pub eye_rotation: u8,
    /// 5 bits, from bit 3 of byte 0x29, counted from the top.
    pub eye_vertical_pos: u8,
    /// 3 bits, from the top of byte 0x2a.
    pub eye_color: u8,
    /// One bit, from bit 3 of byte 0x2a, counted from the top.
    pub unknown8: bool,
    /// 3 bits, from bit 4 of byte 0x2a, counted from the top.
    pub eye_size: u8,
    /// 4 bits, from bit 7 of byte 0x2a, counted from the top.
    pub eye_horizontal_spacing: u8,
    /// 5 bits, from bit 3 of byte 0x2b, counted from the top.
    pub unknown9: u8,
    /// 4 bits, from the top of byte 0x2c.
    pub nose_type: u8,
    /// 4 bits, from bit 4 of byte 0x2c, counted from the top.
    pub nose_size: u8,
    /// 5 bits, from the top of byte 0x2d.
    pub nose_vertical_pos: u8,
    /// 3 bits, from bit 5 of byte 0x2d, counted from the top.
    pub unknown10: u8,
    /// 5 bits, from the top of byte 0x2e.
    pub lip_type: u8,
    /// 2 bits, from bit 5 of byte 0x2e, counted from the top.
    pub lip_color: u8,
    /// 4 bits, from bit 7 of byte 0x2e, counted from the top.
    pub lip_size: u8,
    /// 5 bits, from bit 3 of byte 0x2f, counted from the top.
    pub lip_vertical_pos: u8,
    /// 4 bits, from the top of byte 0x30.
    pub glasses_type: u8,
    /// 3 bits, from bit 4 of byte 0x30, counted from the top.
    pub glasses_color: u8,
    /// One bit, from bit 7 of byte 0x30, counted from the top.
    pub unknown11: bool,
    /// 3 bits, from the top of byte 0x31.
    pub glasses_size: u8,
    /// 5 bits, from bit 3 of byte 0x31, counted from the top.
    pub glasses_vertical_pos: u8,
    /// 2 bits, from the top of byte 0x32.
    pub mustache_type: u8,
    /// 2 bits, from bit 2 of byte 0x32, counted from the top.
    pub beard_type: u8,
    /// 3 bits, from bit 4 of byte 0x32, counted from the top.
    pub facial_hair_color: u8,
    /// 4 bits, from bit 7 of byte 0x32, counted from the top.
    pub mustache_size: u8,
    /// 5 bits, from bit 3 of byte 0x33, counted from the top.
    pub mustache_vertical_pos: u8,
    /// One bit, from the top of byte 0x34.
    pub has_mole: bool,
    /// 4 bits, from bit 1 of byte 0x34, counted from the top.
    pub mole_size: u8,
    /// 5 bits, from bit 5 of byte 0x34, counted from the top.
    pub mole_vertical_pos: u8,
    /// 5 bits, from bit 2 of byte 0x35, counted from the top.
    pub mole_horizontal_pos: u8,
    /// One bit, from bit 7 of byte 0x35, counted from the top.
    pub unknown12: bool,
    /// Ten characters of two bytes each, from byte 0x36 on.
    pub creator_name: String,
}

/// The character that a code unit of a name stands for. A surrogate, which
/// alone stands for none, reads as the replacement character.
pub open spec fn unit_char(unit: u16) -> char {
    if 0xD800 <= unit <= 0xDFFF {
        '\u{FFFD}'
    } else {
        unit as char
    }
}

/// The text of the code units of a name: each but the zero ones is one
/// character.
pub open spec fn name_text(units: Seq<u16>) -> Seq<char>
    decreases units.len(),
{
    if units.len() == 0 {
        Seq::empty()
    } else if units.last() == 0 {
        name_text(units.drop_last())
    } else {
        name_text(units.drop_last()).push(unit_char(units.last()))
    }
}

/// The ten code units of the name that stands at bit `from` of `data`.
pub open spec fn name_units_at(data: Seq<u8>, from: nat) -> Seq<u16> {
    Seq::new(10, |i: int| bits_value(data, (from + 16 * i) as nat, 16) as u16)
}

/// Whether `mii` holds what the 74 bytes of `data` from bit `from` on hold,
/// field by field.
pub open spec fn holds_fields_of(mii: Mii, data: Seq<u8>, from: nat) -> bool {
    &&& mii.unknown1 == (bit_of(data, from + 0) == 1)
    &&& mii.is_girl == (bit_of(data, from + 1) == 1)
    &&& mii.month == bits_value(data, from + 2, 4)
    &&& mii.day == bits_value(data, from + 6, 5)
    &&& mii.favorite_color == bits_value(data, from + 11, 4)
    &&& mii.is_favorite == (bit_of(data, from + 15) == 1)
    &&& mii.name@ == name_text(name_units_at(data, from + 16))
    &&& mii.height == bits_value(data, from + 176, 8)
    &&& mii.weight == bits_value(data, from + 184, 8)
    &&& mii.mii_id1 == bits_value(data, from + 192, 8)
    &&& mii.mii_id2 == bits_value(data, from + 200, 8)
    &&& mii.mii_id3 == bits_value(data, from + 208, 8)
    &&& mii.mii_id4 == bits_value(data, from + 216, 8)
    &&& mii.system_id0 == bits_value(data, from + 224, 8)
    &&& mii.system_id1 == bits_value(data, from + 232, 8)
    &&& mii.system_id2 == bits_value(data, from + 240, 8)
    &&& mii.system_id3 == bits_value(data, from + 248, 8)
    &&& mii.face_shape == bits_value(data, from + 256, 3)
    &&& mii.skin_color == bits_value(data, from + 259, 3)
    &&& mii.facial_feature == bits_value(data, from + 262, 4)
    &&& mii.unknown2 == bits_value(data, from + 266, 3)
    &&& mii.mingle_off == (bit_of(data, from + 269) == 1)
    &&& mii.unknown3 == (bit_of(data, from + 270) == 1)
    &&& mii.downloaded == (bit_of(data, from + 271) == 1)
    &&& mii.hair_type == bits_value(data, from + 272, 7)
    &&& mii.hair_color == bits_value(data, from + 279, 3)
    &&& mii.hair_part_reversed == (bit_of(data, from + 282) == 1)
    &&& mii.unknown4 == bits_value(data, from + 283, 5)
    &&& mii.eyebrow_type == bits_value(data, from + 288, 5)
    &&& mii.unknown5 == (bit_of(data, from + 293) == 1)
    &&& mii.eyebrow_rotation == bits_value(data, from + 294, 4)
    &&& mii.unknown6 == bits_value(data, from + 298, 6)
    &&& mii.eyebrow_color == bits_value(data, from + 304, 3)
    &&& mii.eyebrow_size == bits_value(data, from + 307, 4)
    &&& mii.eyebrow_vertical_pos == bits_value(data, from + 311, 5)
    &&& mii.eyebrow_horizontal_spacing == bits_value(data, from + 316, 4)
    &&& mii.eye_type == bits_value(data, from + 320, 6)
    &&& mii.unknown7 == bits_value(data, from + 326, 2)
    &&& mii.eye_rotation == bits_value(data, from + 328, 3)
    &&& mii.eye_vertical_pos == bits_value(data, from + 331, 5)
    &&& mii.eye_color == bits_value(data, from + 336, 3)
    &&& mii.unknown8 == (bit_of(data, from + 339) == 1)
    &&& mii.eye_size == bits_value(data, from + 340, 3)
    &&& mii.eye_horizontal_spacing == bits_value(data, from + 343, 4)
    &&& mii.unknown9 == bits_value(data, from + 347, 5)
    &&& mii.nose_type == bits_value(data, from + 352, 4)
    &&& mii.nose_size == bits_value(data, from + 356, 4)
    &&& mii.nose_vertical_pos == bits_value(data, from + 360, 5)
    &&& mii.unknown10 == bits_value(data, from + 365, 3)
    &&& mii.lip_type == bits_value(data, from + 368, 5)
    &&& mii.lip_color == bits_value(data, from + 373, 2)
    &&& mii.lip_size == bits_value(data, from + 375, 4)
    &&& mii.lip_vertical_pos == bits_value(data, from + 379, 5)
    &&& mii.glasses_type == bits_value(data, from + 384, 4)
    &&& mii.glasses_color == bits_value(data, from + 388, 3)
    &&& mii.unknown11 == (bit_of(data, from + 391) == 1)
    &&& mii.glasses_size == bits_value(data, from + 392, 3)
    &&& mii.glasses_vertical_pos == bits_value(data, from + 395, 5)
    &&& mii.mustache_type == bits_value(data, from + 400, 2)
    &&& mii.beard_type == bits_value(data, from + 402, 2)
    &&& mii.facial_hair_color == bits_value(data, from + 404, 3)
    &&& mii.mustache_size == bits_value(data, from + 407, 4)
    &&& mii.mustache_vertical_pos == bits_value(data, from + 411, 5)
    &&& mii.has_mole == (bit_of(data, from + 416) == 1)
    &&& mii.mole_size == bits_value(data, from + 417, 4)
    &&& mii.mole_vertical_pos == bits_value(data, from + 421, 5)
    &&& mii.mole_horizontal_pos == bits_value(data, from + 426, 5)
    &&& mii.unknown12 == (bit_of(data, from + 431) == 1)
    &&& mii.creator_name@ == name_text(name_units_at(data, from + 432))
}

/// The Mii as it stands holds the numbers that the Mii as read is made of:
/// each field that a reader takes bit by bit is a field of the view over
/// the bytes of its part.
pub proof fn lemma_mii_as_it_stands_is_mii_as_read(mii: Mii, data: Seq<u8>)
    requires
        data.len() == MII_LENGTH,
        holds_fields_of(mii, data, 0),
    ensures
        mii.unknown1 == bit_at(view_over(data, 0x00, 0x02), 15),
        mii.is_girl == bit_at(view_over(data, 0x00, 0x02), 14),
        mii.month == field_at(view_over(data, 0x00, 0x02), 10, 4),
        mii.day == field_at(view_over(data, 0x00, 0x02), 5, 5),
        mii.favorite_color == field_at(view_over(data, 0x00, 0x02), 1, 4),
        mii.is_favorite == bit_at(view_over(data, 0x00, 0x02), 0),
        mii.height == field_at(view_over(data, 0x16, 0x18), 8, 8),
        mii.weight == field_at(view_over(data, 0x16, 0x18), 0, 8),
        mii.mii_id1 == field_at(view_over(data, 0x18, 0x1C), 24, 8),
        mii.mii_id2 == field_at(view_over(data, 0x18, 0x1C), 16, 8),
        mii.mii_id3 == field_at(view_over(data, 0x18, 0x1C), 8, 8),
        mii.mii_id4 == field_at(view_over(data, 0x18, 0x1C), 0, 8),
        mii.system_id0 == field_at(view_over(data, 0x1C, 0x20), 24, 8),
        mii.system_id1 == field_at(view_over(data, 0x1C, 0x20), 16, 8),
        mii.system_id2 == field_at(view_over(data, 0x1C, 0x20), 8, 8),
        mii.system_id3 == field_at(view_over(data, 0x1C, 0x20), 0, 8),
        mii.face_shape == field_at(view_over(data, 0x20, 0x22), 13, 3),
        mii.skin_color == field_at(view_over(data, 0x20, 0x22), 10, 3),
        mii.facial_feature == field_at(view_over(data, 0x20, 0x22), 6, 4),
        mii.unknown2 == field_at(view_over(data, 0x20, 0x22), 3, 3),
        mii.mingle_off == bit_at(view_over(data, 0x20, 0x22), 2),
        mii.unknown3 == bit_at(view_over(data, 0x20, 0x22), 1),
        mii.downloaded == bit_at(view_over(data, 0x20, 0x22), 0),
        mii.hair_type == field_at(view_over(data, 0x22, 0x24), 9, 7),
        mii.hair_color == field_at(view_over(data, 0x22, 0x24), 6, 3),
        mii.hair_part_reversed == bit_at(view_over(data, 0x22, 0x24), 5),
        mii.unknown4 == field_at(view_over(data, 0x22, 0x24), 0, 5),
        mii.eyebrow_type == field_at(view_over(data, 0x24, 0x28), 27, 5),
        mii.unknown5 == bit_at(view_over(data, 0x24, 0x28), 26),
        mii.eyebrow_rotation == field_at(view_over(data, 0x24, 0x28), 22, 4),
        mii.unknown6 == field_at(view_over(data, 0x24, 0x28), 16, 6),
        mii.eyebrow_color == field_at(view_over(data, 0x24, 0x28), 13, 3),
        mii.eyebrow_size == field_at(view_over(data, 0x24, 0x28), 9, 4),
        mii.eyebrow_vertical_pos == field_at(view_over(data, 0x24, 0x28), 4, 5),
        mii.eyebrow_horizontal_spacing == field_at(view_over(data, 0x24, 0x28), 0, 4),
        mii.eye_type == field_at(view_over(data, 0x28, 0x2C), 26, 6),
        mii.unknown7 == field_at(view_over(data, 0x28, 0x2C), 24, 2),
        mii.eye_rotation == field_at(view_over(data, 0x28, 0x2C), 21, 3),
        mii.eye_vertical_pos == field_at(view_over(data, 0x28, 0x2C), 16, 5),
        mii.eye_color == field_at(view_over(data, 0x28, 0x2C), 13, 3),
        mii.unknown8 == bit_at(view_over(data, 0x28, 0x2C), 12),
        mii.eye_size == field_at(view_over(data, 0x28, 0x2C), 9, 3),
        mii.eye_horizontal_spacing == field_at(view_over(data, 0x28, 0x2C), 5, 4),
        mii.unknown9 == field_at(view_over(data, 0x28, 0x2C), 0, 5),
        mii.nose_type == field_at(view_over(data, 0x2C, 0x2E), 12, 4),
        mii.nose_size == field_at(view_over(data, 0x2C, 0x2E), 8, 4),
        mii.nose_vertical_pos == field_at(view_over(data, 0x2C, 0x2E), 3, 5),
        mii.unknown10 == field_at(view_over(data, 0x2C, 0x2E), 0, 3),
        mii.lip_type == field_at(view_over(data, 0x2E, 0x30), 11, 5),
        mii.lip_color == field_at(view_over(data, 0x2E, 0x30), 9, 2),
        mii.lip_size == field_at(view_over(data, 0x2E, 0x30), 5, 4),
        mii.lip_vertical_pos == field_at(view_over(data, 0x2E, 0x30), 0, 5),
        mii.glasses_type == field_at(view_over(data, 0x30, 0x32), 12, 4),
        mii.glasses_color == field_at(view_over(data, 0x30, 0x32), 9, 3),
        mii.unknown11 == bit_at(view_over(data, 0x30, 0x32), 8),
        mii.glasses_size == field_at(view_over(data, 0x30, 0x32), 5, 3),
        mii.glasses_vertical_pos == field_at(view_over(data, 0x30, 0x32), 0, 5),
        mii.mustache_type == field_at(view_over(data, 0x32, 0x34), 14, 2),
        mii.beard_type == field_at(view_over(data, 0x32, 0x34), 12, 2),
        mii.facial_hair_color == field_at(view_over(data, 0x32, 0x34), 9, 3),
        mii.mustache_size == field_at(view_over(data, 0x32, 0x34), 5, 4),
        mii.mustache_vertical_pos == field_at(view_over(data, 0x32, 0x34), 0, 5),
        mii.has_mole == bit_at(view_over(data, 0x34, 0x36), 15),
        mii.mole_size == field_at(view_over(data, 0x34, 0x36), 11, 4),
        mii.mole_vertical_pos == field_at(view_over(data, 0x34, 0x36), 6, 5),
        mii.mole_horizontal_pos == field_at(view_over(data, 0x34, 0x36), 1, 5),
        mii.unknown12 == bit_at(view_over(data, 0x34, 0x36), 0),
{
    lemma_bit_of_view(data, 0x00, 2, 0);
    lemma_bit_of_view(data, 0x00, 2, 1);
    lemma_bits_value_of_view(data, 0x00, 2, 2, 4);
    lemma_bits_value_of_view(data, 0x00, 2, 6, 5);
    lemma_bits_value_of_view(data, 0x00, 2, 11, 4);
    lemma_bit_of_view(data, 0x00, 2, 15);
    lemma_bits_value_of_view(data, 0x16, 2, 0, 8);
    lemma_bits_value_of_view(data, 0x16, 2, 8, 8);
    lemma_bits_value_of_view(data, 0x18, 4, 0, 8);
    lemma_bits_value_of_view(data, 0x18, 4, 8, 8);
    lemma_bits_value_of_view(data, 0x18, 4, 16, 8);
    lemma_bits_value_of_view(data, 0x18, 4, 24, 8);
    lemma_bits_value_of_view(data, 0x1C, 4, 0, 8);
    lemma_bits_value_of_view(data, 0x1C, 4, 8, 8);
    lemma_bits_value_of_view(data, 0x1C, 4, 16, 8);
    lemma_bits_value_of_view(data, 0x1C, 4, 24, 8);
    lemma_bits_value_of_view(data, 0x20, 2, 0, 3);
    lemma_bits_value_of_view(data, 0x20, 2, 3, 3);
    lemma_bits_value_of_view(data, 0x20, 2, 6, 4);
    lemma_bits_value_of_view(data, 0x20, 2, 10, 3);
    lemma_bit_of_view(data, 0x20, 2, 13);
    lemma_bit_of_view(data, 0x20, 2, 14);
    lemma_bit_of_view(data, 0x20, 2, 15);
    lemma_bits_value_of_view(data, 0x22, 2, 0, 7);
    lemma_bits_value_of_view(data, 0x22, 2, 7, 3);
    lemma_bit_of_view(data, 0x22, 2, 10);
    lemma_bits_value_of_view(data, 0x22, 2, 11, 5);
    lemma_bits_value_of_view(data, 0x24, 4, 0, 5);
    lemma_bit_of_view(data, 0x24, 4, 5);
    lemma_bits_value_of_view(data, 0x24, 4, 6, 4);
    lemma_bits_value_of_view(data, 0x24, 4, 10, 6);
    lemma_bits_value_of_view(data, 0x24, 4, 16, 3);
    lemma_bits_value_of_view(data, 0x24, 4, 19, 4);
    lemma_bits_value_of_view(data, 0x24, 4, 23, 5);
    lemma_bits_value_of_view(data, 0x24, 4, 28, 4);
    lemma_bits_value_of_view(data, 0x28, 4, 0, 6);
    lemma_bits_value_of_view(data, 0x28, 4, 6, 2);
    lemma_bits_value_of_view(data, 0x28, 4, 8, 3);
    lemma_bits_value_of_view(data, 0x28, 4, 11, 5);
    lemma_bits_value_of_view(data, 0x28, 4, 16, 3);
    lemma_bit_of_view(data, 0x28, 4, 19);
    lemma_bits_value_of_view(data, 0x28, 4, 20, 3);
    lemma_bits_value_of_view(data, 0x28, 4, 23, 4);
    lemma_bits_value_of_view(data, 0x28, 4, 27, 5);
    lemma_bits_value_of_view(data, 0x2C, 2, 0, 4);
    lemma_bits_value_of_view(data, 0x2C, 2, 4, 4);
    lemma_bits_value_of_view(data, 0x2C, 2, 8, 5);
    lemma_bits_value_of_view(data, 0x2C, 2, 13, 3);
    lemma_bits_value_of_view(data, 0x2E, 2, 0, 5);
    lemma_bits_value_of_view(data, 0x2E, 2, 5, 2);
    lemma_bits_value_of_view(data, 0x2E, 2, 7, 4);
    lemma_bits_value_of_view(data, 0x2E, 2, 11, 5);
    lemma_bits_value_of_view(data, 0x30, 2, 0, 4);
    lemma_bits_value_of_view(data, 0x30, 2, 4, 3);
    lemma_bit_of_view(data, 0x30, 2, 7);
    lemma_bits_value_of_view(data, 0x30, 2, 8, 3);
    lemma_bits_value_of_view(data, 0x30, 2, 11, 5);
    lemma_bits_value_of_view(data, 0x32, 2, 0, 2);
    lemma_bits_value_of_view(data, 0x32, 2, 2, 2);
    lemma_bits_value_of_view(data, 0x32, 2, 4, 3);
    lemma_bits_value_of_view(data, 0x32, 2, 7, 4);
    lemma_bits_value_of_view(data, 0x32, 2, 11, 5);
    lemma_bit_of_view(data, 0x34, 2, 0);
    lemma_bits_value_of_view(data, 0x34, 2, 1, 4);
    lemma_bits_value_of_view(data, 0x34, 2, 5, 5);
    lemma_bits_value_of_view(data, 0x34, 2, 10, 5);
    lemma_bit_of_view(data, 0x34, 2, 15);
}

impl Mii {
    /// Reads a Mii out of its 74 bytes. Bytes behind them are not looked
    /// at; where there are fewer, the error of the reader comes back.
    pub fn new(mii_data: &[u8]) -> (r: Result<Self, BitReaderError>)
        ensures
            r is Ok <==> mii_data@.len() >= MII_LENGTH,
            r is Ok ==> holds_fields_of(r->Ok_0, mii_data@.take(MII_LENGTH as int), 0),
    {
        let mii_data = if mii_data.len() > MII_LENGTH {
            slice_subrange(mii_data, 0, MII_LENGTH)
        } else {
            mii_data
        };
        let mut mii_reader: BitReader<'_> = BitReader::new(mii_data);
        let mii = Self::from_reader(&mut mii_reader)?;
        proof {
            assert(mii_data@ =~= mii_data@.take(MII_LENGTH as int));
        }
        Ok(mii)
    }

    /// Reads a Mii out of the next 74 bytes of a reader. Where the reader
    /// has fewer left, its error comes back.
    pub fn from_reader(mii_reader: &mut BitReader<'_>) -> (r: Result<Self, BitReaderError>)
        ensures
            reader_bytes(*final(mii_reader)) == reader_bytes(*old(mii_reader)),
            reader_limit(*final(mii_reader)) == reader_limit(*old(mii_reader)),
            r is Ok <==> reader_position(*old(mii_reader)) + 8 * MII_LENGTH <= reader_limit(
                *old(mii_reader),
            ),
            r is Ok ==> holds_fields_of(
                r->Ok_0,
                reader_bytes(*old(mii_reader)),
                reader_position(*old(mii_reader)),
            ) && reader_position(*final(mii_reader)) == reader_position(*old(mii_reader)) + 8
                * MII_LENGTH,
    {
        let (
            unknown1,
            is_girl,
            month,
            day,
            favorite_color,
            is_favorite,
        ) = read_person(mii_reader)?;
        let name = read_name(mii_reader)?;
        let (height, weight) = read_build(mii_reader)?;
        let (mii_id1, mii_id2, mii_id3, mii_id4) = read_mii_id(mii_reader)?;
        let (system_id0, system_id1, system_id2, system_id3) = read_system_id(mii_reader)?;
        let (
            face_shape,
            skin_color,
            facial_feature,
            unknown2,
            mingle_off,
            unknown3,
            downloaded,
        ) = read_head(mii_reader)?;
        let (hair_type, hair_color, hair_part_reversed, unknown4) = read_hair(mii_reader)?;
        let (
            eyebrow_type,
            unknown5,
            eyebrow_rotation,
            unknown6,
            eyebrow_color,
            eyebrow_size,
            eyebrow_vertical_pos,
            eyebrow_horizontal_spacing,
        ) = read_eyebrows(mii_reader)?;
        let (
            eye_type,
            unknown7,
            eye_rotation,
            eye_vertical_pos,
            eye_color,
            unknown8,
            eye_size,
            eye_horizontal_spacing,
            unknown9,
        ) = read_eyes(mii_reader)?;
        let (nose_type, nose_size, nose_vertical_pos, unknown10) = read_nose(mii_reader)?;
        let (lip_type, lip_color, lip_size, lip_vertical_pos) = read_lips(mii_reader)?;
        let (
            glasses_type,
            glasses_color,
            unknown11,
            glasses_size,
            glasses_vertical_pos,
        ) = read_glasses(mii_reader)?;
        let (
            mustache_type,
            beard_type,
            facial_hair_color,
            mustache_size,
            mustache_vertical_pos,
        ) = read_facial_hair(mii_reader)?;
        let (
            has_mole,
            mole_size,
            mole_vertical_pos,
            mole_horizontal_pos,
            unknown12,
        ) = read_mole(mii_reader)?;
        let creator_name = read_name(mii_reader)?;

        Ok(
            Self {
                unknown1,
                is_girl,
                month,
                day,
                favorite_color,
                is_favorite,
                name,
                height,
                weight,
                mii_id1,
                mii_id2,
                mii_id3,
                mii_id4,
                system_id0,
                system_id1,
                system_id2,
                system_id3,
                face_shape,
                skin_color,
                facial_feature,
                unknown2,
                mingle_off,
                unknown3,
                downloaded,
                hair_type,
                hair_color,
                hair_part_reversed,
                unknown4,
                eyebrow_type,
                unknown5,
                eyebrow_rotation,
                unknown6,
                eyebrow_color,
                eyebrow_size,
                eyebrow_vertical_pos,
                eyebrow_horizontal_spacing,
                eye_type,
                unknown7,
                eye_rotation,
                eye_vertical_pos,
                eye_color,
                unknown8,
                eye_size,
                eye_horizontal_spacing,
                unknown9,
                nose_type,
                nose_size,
                nose_vertical_pos,
                unknown10,
                lip_type,
                lip_color,
                lip_size,
                lip_vertical_pos,
                glasses_type,
                glasses_color,
                unknown11,
                glasses_size,
                glasses_vertical_pos,
                mustache_type,
                beard_type,
                facial_hair_color,
                mustache_size,
                mustache_vertical_pos,
                has_mole,
                mole_size,
                mole_vertical_pos,
                mole_horizontal_pos,
                unknown12,
                creator_name,
            },
        )
    }

    pub fn unknown1(&self) -> (r: bool)
        ensures
            r == self.unknown1,
    {
        self.unknown1
    }

    pub fn is_girl(&self) -> (r: bool)
        ensures
            r == self.is_girl,
    {
        self.is_girl
    }

    pub fn month(&self) -> (r: u8)
        ensures
            r == self.month,
    {
        self.month
    }

    pub fn day(&self) -> (r: u8)
        ensures
            r == self.day,
    {
        self.day
    }

    pub fn favorite_color(&self) -> (r: u8)
        ensures
            r == self.favorite_color,
    {
        self.favorite_color
    }

    pub fn is_favorite(&self) -> (r: bool)
        ensures
            r == self.is_favorite,
    {
        self.is_favorite
    }

    pub fn name(&self) -> (r: &str)
        ensures
            r@ == self.name@,
    {
        self.name.as_str()
    }

    pub fn height(&self) -> (r: u8)
        ensures
            r == self.height,
    {
        self.height
    }

    pub fn weight(&self) -> (r: u8)
        ensures
            r == self.weight,
    {
        self.weight
    }

    pub fn mii_id1(&self) -> (r: u8)
        ensures
            r == self.mii_id1,
    {
        self.mii_id1
    }

    pub fn mii_id2(&self) -> (r: u8)
        ensures
            r == self.mii_id2,
    {
        self.mii_id2
    }

    pub fn mii_id3(&self) -> (r: u8)
        ensures
            r == self.mii_id3,
    {
        self.mii_id3
    }

    pub fn mii_id4(&self) -> (r: u8)
        ensures
            r == self.mii_id4,
    {
        self.mii_id4
    }

    pub fn system_id0(&self) -> (r: u8)
        ensures
            r == self.system_id0,
    {
        self.system_id0
    }

    pub fn system_id1(&self) -> (r: u8)
        ensures
            r == self.system_id1,
    {
        self.system_id1
    }

    pub fn system_id2(&self) -> (r: u8)
        ensures
            r == self.system_id2,
    {
        self.system_id2
    }

    pub fn system_id3(&self) -> (r: u8)
        ensures
            r == self.system_id3,
    {
        self.system_id3
    }

    pub fn face_shape(&self) -> (r: u8)
        ensures
            r == self.face_shape,
    {
        self.face_shape
    }

    pub fn skin_color(&self) -> (r: u8)
        ensures
            r == self.skin_color,
    {
        self.skin_color
    }

    pub fn facial_feature(&self) -> (r: u8)
        ensures
            r == self.facial_feature,
    {
        self.facial_feature
    }

    pub fn unknown2(&self) -> (r: u8)
        ensures
            r == self.unknown2,
    {
        self.unknown2
    }

    pub fn mingle_off(&self) -> (r: bool)
        ensures
            r == self.mingle_off,
    {
        self.mingle_off
    }

    pub fn unknown3(&self) -> (r: bool)
        ensures
            r == self.unknown3,
    {
        self.unknown3
    }

    pub fn downloaded(&self) -> (r: bool)
        ensures
            r == self.downloaded,
    {
        self.downloaded
    }

    pub fn hair_type(&self) -> (r: u8)
        ensures
            r == self.hair_type,
    {
        self.hair_type
    }

    pub fn hair_color(&self) -> (r: u8)
        ensures
            r == self.hair_color,
    {
        self.hair_color
    }

    pub fn hair_part_reversed(&self) -> (r: bool)
        ensures
            r == self.hair_part_reversed,
    {
        self.hair_part_reversed
    }

    pub fn unknown4(&self) -> (r: u8)
        ensures
            r == self.unknown4,
    {
        self.unknown4
    }

    pub fn eyebrow_type(&self) -> (r: u8)
        ensures
            r == self.eyebrow_type,
    {
        self.eyebrow_type
    }

    pub fn unknown5(&self) -> (r: bool)
        ensures
            r == self.unknown5,
    {
        self.unknown5
    }

    pub fn eyebrow_rotation(&self) -> (r: u8)
        ensures
            r == self.eyebrow_rotation,
    {
        self.eyebrow_rotation
    }

    pub fn unknown6(&self) -> (r: u8)
        ensures
            r == self.unknown6,
    {
        self.unknown6
    }

    pub fn eyebrow_color(&self) -> (r: u8)
        ensures
            r == self.eyebrow_color,
    {
        self.eyebrow_color
    }

    pub fn eyebrow_size(&self) -> (r: u8)
        ensures
            r == self.eyebrow_size,
    {
        self.eyebrow_size
    }

    pub fn eyebrow_vertical_pos(&self) -> (r: u8)
        ensures
            r == self.eyebrow_vertical_pos,
    {
        self.eyebrow_vertical_pos
    }

    pub fn eyebrow_horizontal_spacing(&self) -> (r: u8)
        ensures
            r == self.eyebrow_horizontal_spacing,
    {
        self.eyebrow_horizontal_spacing
    }

    pub fn eye_type(&self) -> (r: u8)
        ensures
            r == self.eye_type,
    {
        self.eye_type
    }

    pub fn unknown7(&self) -> (r: u8)
        ensures
            r == self.unknown7,
    {
        self.unknown7
    }

    pub fn eye_rotation(&self) -> (r: u8)
        ensures
            r == self.eye_rotation,
    {
        self.eye_rotation
    }

    pub fn eye_vertical_pos(&self) -> (r: u8)
        ensures
            r == self.eye_vertical_pos,
    {
        self.eye_vertical_pos
    }

    pub fn eye_color(&self) -> (r: u8)
        ensures
            r == self.eye_color,
    {
        self.eye_color
    }

    pub fn unknown8(&self) -> (r: bool)
        ensures
            r == self.unknown8,
    {
        self.unknown8
    }

    pub fn eye_size(&self) -> (r: u8)
        ensures
            r == self.eye_size,
    {
        self.eye_size
    }

    pub fn eye_horizontal_spacing(&self) -> (r: u8)
        ensures
            r == self.eye_horizontal_spacing,
    {
        self.eye_horizontal_spacing
    }

    pub fn unknown9(&self) -> (r: u8)
        ensures
            r == self.unknown9,
    {
        self.unknown9
    }

    pub fn nose_type(&self) -> (r: u8)
        ensures
            r == self.nose_type,
    {
        self.nose_type
    }

    pub fn nose_size(&self) -> (r: u8)
        ensures
            r == self.nose_size,
    {
        self.nose_size
    }

    pub fn nose_vertical_pos(&self) -> (r: u8)
        ensures
            r == self.nose_vertical_pos,
    {
        self.nose_vertical_pos
    }

    pub fn unknown10(&self) -> (r: u8)
        ensures
            r == self.unknown10,
    {
        self.unknown10
    }

    pub fn lip_type(&self) -> (r: u8)
        ensures
            r == self.lip_type,
    {
        self.lip_type
    }

    pub fn lip_color(&self) -> (r: u8)
        ensures
            r == self.lip_color,
    {
        self.lip_color
    }

    pub fn lip_size(&self) -> (r: u8)
        ensures
            r == self.lip_size,
    {
        self.lip_size
    }

    pub fn lip_vertical_pos(&self) -> (r: u8)
        ensures
            r == self.lip_vertical_pos,
    {
        self.lip_vertical_pos
    }

    pub fn glasses_type(&self) -> (r: u8)
        ensures
            r == self.glasses_type,
    {
        self.glasses_type
    }

    pub fn glasses_color(&self) -> (r: u8)
        ensures
            r == self.glasses_color,
    {
        self.glasses_color
    }

    pub fn unknown11(&self) -> (r: bool)
        ensures
            r == self.unknown11,
    {
        self.unknown11
    }

    pub fn glasses_size(&self) -> (r: u8)
        ensures
            r == self.glasses_size,
    {
        self.glasses_size
    }

    pub fn glasses_vertical_pos(&self) -> (r: u8)
        ensures
            r == self.glasses_vertical_pos,
    {
        self.glasses_vertical_pos
    }

    pub fn mustache_type(&self) -> (r: u8)
        ensures
            r == self.mustache_type,
    {
        self.mustache_type
    }

    pub fn beard_type(&self) -> (r: u8)
        ensures
            r == self.beard_type,
    {
        self.beard_type
    }

    pub fn facial_hair_color(&self) -> (r: u8)
        ensures
            r == self.facial_hair_color,
    {
        self.facial_hair_color
    }

    pub fn mustache_size(&self) -> (r: u8)
        ensures
            r == self.mustache_size,
    {
        self.mustache_size
    }

    pub fn mustache_vertical_pos(&self) -> (r: u8)
        ensures
            r == self.mustache_vertical_pos,
    {
        self.mustache_vertical_pos
    }

    pub fn has_mole(&self) -> (r: bool)
        ensures
            r == self.has_mole,
    {
        self.has_mole
    }

    pub fn mole_size(&self) -> (r: u8)
        ensures
            r == self.mole_size,
    {
        self.mole_size
    }

    pub fn mole_vertical_pos(&self) -> (r: u8)
        ensures
            r == self.mole_vertical_pos,
    {
        self.mole_vertical_pos
    }

    pub fn mole_horizontal_pos(&self) -> (r: u8)
        ensures
            r == self.mole_horizontal_pos,
    {
        self.mole_horizontal_pos
    }

    pub fn unknown12(&self) -> (r: bool)
        ensures
            r == self.unknown12,
    {
        self.unknown12
    }

    pub fn creator_name(&self) -> (r: &str)
        ensures
            r@ == self.creator_name@,
    {
        self.creator_name.as_str()
    }

}

/// Reads the fields of what tells of the person: 2 bytes.
fn read_person(reader: &mut BitReader<'_>) -> (r: Result<
    (bool, bool, u8, u8, u8, bool),
    BitReaderError,
>)
    ensures
        reader_bytes(*final(reader)) == reader_bytes(*old(reader)),
        reader_limit(*final(reader)) == reader_limit(*old(reader)),
        r is Ok <==> reader_position(*old(reader)) + 16 <= reader_limit(*old(reader)),
        r is Ok ==> {
            &&& reader_position(*final(reader)) == reader_position(*old(reader)) + 16
            &&& r->Ok_0.0 == (bit_of(
                reader_bytes(*old(reader)),
                reader_position(*old(reader)) + 0,
            ) == 1)
            &&& r->Ok_0.1 == (bit_of(
                reader_bytes(*old(reader)),
                reader_position(*old(reader)) + 1,
            ) == 1)
            &&& r->Ok_0.2 == bits_value(
                reader_bytes(*old(reader)),
                reader_position(*old(reader)) + 2,
                4,
            )
            &&& r->Ok_0.3 == bits_value(
                reader_bytes(*old(reader)),
                reader_position(*old(reader)) + 6,
                5,
            )
            &&& r->Ok_0.4 == bits_value(
                reader_bytes(*old(reader)),
                reader_position(*old(reader)) + 11,
                4,
            )
            &&& r->Ok_0.5 == (bit_of(
                reader_bytes(*old(reader)),
                reader_position(*old(reader)) + 15,
            ) == 1)
        },
{
    let unknown1 = reader.read_bool()?;
    let is_girl = reader.read_bool()?;
    let month = reader.read_u8(4)?;
    let day = reader.read_u8(5)?;
    let favorite_color = reader.read_u8(4)?;
    let is_favorite = reader.read_bool()?;
    Ok((unknown1, is_girl, month, day, favorite_color, is_favorite))
}

/// Reads the fields of the build: 2 bytes.
fn read_build(reader: &mut BitReader<'_>) -> (r: Result<(u8, u8), BitReaderError>)
    ensures
        reader_bytes(*final(reader)) == reader_bytes(*old(reader)),
        reader_limit(*final(reader)) == reader_limit(*old(reader)),
        r is Ok <==> reader_position(*old(reader)) + 16 <= reader_limit(*old(reader)),
        r is Ok ==> {
            &&& reader_position(*final(reader)) == reader_position(*old(reader)) + 16
            &&& r->Ok_0.0 == bits_value(
                reader_bytes(*old(reader)),
                reader_position(*old(reader)) + 0,
                8,
            )
            &&& r->Ok_0.1 == bits_value(
                reader_bytes(*old(reader)),
                reader_position(*old(reader)) + 8,
                8,
            )
        },
{
    let height = reader.read_u8(8)?;
    let weight = reader.read_u8(8)?;
    Ok((height, weight))
}

/// Reads the fields of the number of the Mii: 4 bytes.
fn read_mii_id(reader: &mut BitReader<'_>) -> (r: Result<(u8, u8, u8, u8), BitReaderError>)
    ensures
        reader_bytes(*final(reader)) == reader_bytes(*old(reader)),
        reader_limit(*final(reader)) == reader_limit(*old(reader)),
        r is Ok <==> reader_position(*old(reader)) + 32 <= reader_limit(*old(reader)),
        r is Ok ==> {
            &&& reader_position(*final(reader)) == reader_position(*old(reader)) + 32
            &&& r->Ok_0.0 == bits_value(
                reader_bytes(*old(reader)),
                reader_position(*old(reader)) + 0,
                8,
            )
            &&& r->Ok_0.1 == bits_value(
                reader_bytes(*old(reader)),
                reader_position(*old(reader)) + 8,
                8,
            )
            &&& r->Ok_0.2 == bits_value(
                reader_bytes(*old(reader)),
                reader_position(*old(reader)) + 16,
                8,
            )
            &&& r->Ok_0.3 == bits_value(
                reader_bytes(*old(reader)),
                reader_position(*old(reader)) + 24,
                8,
            )
        },
{
    let mii_id1 = reader.read_u8(8)?;
    let mii_id2 = reader.read_u8(8)?;
    let mii_id3 = reader.read_u8(8)?;
    let mii_id4 = reader.read_u8(8)?;
    Ok((mii_id1, mii_id2, mii_id3, mii_id4))
}

/// Reads the fields of the number of the console: 4 bytes.
fn read_system_id(reader: &mut BitReader<'_>) -> (r: Result<(u8, u8, u8, u8), BitReaderError>)
    ensures
        reader_bytes(*final(reader)) == reader_bytes(*old(reader)),
        reader_limit(*final(reader)) == reader_limit(*old(reader)),
        r is Ok <==> reader_position(*old(reader)) + 32 <= reader_limit(*old(reader)),
        r is Ok ==> {
            &&& reader_position(*final(reader)) == reader_position(*old(reader)) + 32
            &&& r->Ok_0.0 == bits_value(
                reader_bytes(*old(reader)),
                reader_position(*old(reader)) + 0,
                8,
            )
            &&& r->Ok_0.1 == bits_value(
                reader_bytes(*old(reader)),
                reader_position(*old(reader)) + 8,
                8,
            )
            &&& r->Ok_0.2 == bits_value(
                reader_bytes(*old(reader)),
                reader_position(*old(reader)) + 16,
                8,
            )
            &&& r->Ok_0.3 == bits_value(
                reader_bytes(*old(reader)),
                reader_position(*old(reader)) + 24,
                8,
            )
        },
{
    let system_id0 = reader.read_u8(8)?;
    let system_id1 = reader.read_u8(8)?;
    let system_id2 = reader.read_u8(8)?;
    let system_id3 = reader.read_u8(8)?;
    Ok((system_id0, system_id1, system_id2, system_id3))
}

/// Reads the fields of the head: 2 bytes.
fn read_head(reader: &mut BitReader<'_>) -> (r: Result<
    (u8, u8, u8, u8, bool, bool, bool),
    BitReaderError,
>)
    ensures
        reader_bytes(*final(reader)) == reader_bytes(*old(reader)),
        reader_limit(*final(reader)) == reader_limit(*old(reader)),
        r is Ok <==> reader_position(*old(reader)) + 16 <= reader_limit(*old(reader)),
        r is Ok ==> {
            &&& reader_position(*final(reader)) == reader_position(*old(reader)) + 16
            &&& r->Ok_0.0 == bits_value(
                reader_bytes(*old(reader)),
                reader_position(*old(reader)) + 0,
                3,
            )
            &&& r->Ok_0.1 == bits_value(
                reader_bytes(*old(reader)),
                reader_position(*old(reader)) + 3,
                3,
            )
            &&& r->Ok_0.2 == bits_value(
                reader_bytes(*old(reader)),
                reader_position(*old(reader)) + 6,
                4,
            )
            &&& r->Ok_0.3 == bits_value(
                reader_bytes(*old(reader)),
                reader_position(*old(reader)) + 10,
                3,
            )
            &&& r->Ok_0.4 == (bit_of(
                reader_bytes(*old(reader)),
                reader_position(*old(reader)) + 13,
            ) == 1)
            &&& r->Ok_0.5 == (bit_of(
                reader_bytes(*old(reader)),
                reader_position(*old(reader)) + 14,
            ) == 1)
            &&& r->Ok_0.6 == (bit_of(
                reader_bytes(*old(reader)),
                reader_position(*old(reader)) + 15,
            ) == 1)
        },
{
    let face_shape = reader.read_u8(3)?;
    let skin_color = reader.read_u8(3)?;
    let facial_feature = reader.read_u8(4)?;
    let unknown2 = reader.read_u8(3)?;
    let mingle_off = reader.read_bool()?;
    let unknown3 = reader.read_bool()?;
    let downloaded = reader.read_bool()?;
    Ok((face_shape, skin_color, facial_feature, unknown2, mingle_off, unknown3, downloaded))
}

/// Reads the fields of the hair: 2 bytes.
fn read_hair(reader: &mut BitReader<'_>) -> (r: Result<(u8, u8, bool, u8), BitReaderError>)
    ensures
        reader_bytes(*final(reader)) == reader_bytes(*old(reader)),
        reader_limit(*final(reader)) == reader_limit(*old(reader)),
        r is Ok <==> reader_position(*old(reader)) + 16 <= reader_limit(*old(reader)),
        r is Ok ==> {
            &&& reader_position(*final(reader)) == reader_position(*old(reader)) + 16
            &&& r->Ok_0.0 == bits_value(
                reader_bytes(*old(reader)),
                reader_position(*old(reader)) + 0,
                7,
            )
            &&& r->Ok_0.1 == bits_value(
                reader_bytes(*old(reader)),
                reader_position(*old(reader)) + 7,
                3,
            )
            &&& r->Ok_0.2 == (bit_of(
                reader_bytes(*old(reader)),
                reader_position(*old(reader)) + 10,
            ) == 1)
            &&& r->Ok_0.3 == bits_value(
                reader_bytes(*old(reader)),
                reader_position(*old(reader)) + 11,
                5,
            )
        },
{
    let hair_type = reader.read_u8(7)?;
    let hair_color = reader.read_u8(3)?;
    let hair_part_reversed = reader.read_bool()?;
    let unknown4 = reader.read_u8(5)?;
    Ok((hair_type, hair_color, hair_part_reversed, unknown4))
}

/// Reads the fields of the eyebrows: 4 bytes.
fn read_eyebrows(reader: &mut BitReader<'_>) -> (r: Result<
    (u8, bool, u8, u8, u8, u8, u8, u8),
    BitReaderError,
>)
    ensures
        reader_bytes(*final(reader)) == reader_bytes(*old(reader)),
        reader_limit(*final(reader)) == reader_limit(*old(reader)),
        r is Ok <==> reader_position(*old(reader)) + 32 <= reader_limit(*old(reader)),
        r is Ok ==> {
            &&& reader_position(*final(reader)) == reader_position(*old(reader)) + 32
            &&& r->Ok_0.0 == bits_value(
                reader_bytes(*old(reader)),
                reader_position(*old(reader)) + 0,
                5,
            )
            &&& r->Ok_0.1 == (bit_of(
                reader_bytes(*old(reader)),
                reader_position(*old(reader)) + 5,
            ) == 1)
            &&& r->Ok_0.2 == bits_value(
                reader_bytes(*old(reader)),
                reader_position(*old(reader)) + 6,
                4,
            )
            &&& r->Ok_0.3 == bits_value(
                reader_bytes(*old(reader)),
                reader_position(*old(reader)) + 10,
                6,
            )
            &&& r->Ok_0.4 == bits_value(
                reader_bytes(*old(reader)),
                reader_position(*old(reader)) + 16,
                3,
            )
            &&& r->Ok_0.5 == bits_value(
                reader_bytes(*old(reader)),
                reader_position(*old(reader)) + 19,
                4,
            )
            &&& r->Ok_0.6 == bits_value(
                reader_bytes(*old(reader)),
                reader_position(*old(reader)) + 23,
                5,
            )
            &&& r->Ok_0.7 == bits_value(
                reader_bytes(*old(reader)),
                reader_position(*old(reader)) + 28,
                4,
            )
        },
{
    let eyebrow_type = reader.read_u8(5)?;
    let unknown5 = reader.read_bool()?;
    let eyebrow_rotation = reader.read_u8(4)?;
    let unknown6 = reader.read_u8(6)?;
    let eyebrow_color = reader.read_u8(3)?;
    let eyebrow_size = reader.read_u8(4)?;
    let eyebrow_vertical_pos = reader.read_u8(5)?;
    let eyebrow_horizontal_spacing = reader.read_u8(4)?;
    Ok(
        (
            eyebrow_type,
            unknown5,
            eyebrow_rotation,
            unknown6,
            eyebrow_color,
            eyebrow_size,
            eyebrow_vertical_pos,
            eyebrow_horizontal_spacing,
        ),
    )
}

/// Reads the fields of the eyes: 4 bytes.
fn read_eyes(reader: &mut BitReader<'_>) -> (r: Result<
    (u8, u8, u8, u8, u8, bool, u8, u8, u8),
    BitReaderError,
>)
    ensures
        reader_bytes(*final(reader)) == reader_bytes(*old(reader)),
        reader_limit(*final(reader)) == reader_limit(*old(reader)),
        r is Ok <==> reader_position(*old(reader)) + 32 <= reader_limit(*old(reader)),
        r is Ok ==> {
            &&& reader_position(*final(reader)) == reader_position(*old(reader)) + 32
            &&& r->Ok_0.0 == bits_value(
                reader_bytes(*old(reader)),
                reader_position(*old(reader)) + 0,
                6,
            )
            &&& r->Ok_0.1 == bits_value(
                reader_bytes(*old(reader)),
                reader_position(*old(reader)) + 6,
                2,
            )
            &&& r->Ok_0.2 == bits_value(
                reader_bytes(*old(reader)),
                reader_position(*old(reader)) + 8,
                3,
            )
            &&& r->Ok_0.3 == bits_value(
                reader_bytes(*old(reader)),
                reader_position(*old(reader)) + 11,
                5,
            )
            &&& r->Ok_0.4 == bits_value(
                reader_bytes(*old(reader)),
                reader_position(*old(reader)) + 16,
                3,
            )
            &&& r->Ok_0.5 == (bit_of(
                reader_bytes(*old(reader)),
                reader_position(*old(reader)) + 19,
            ) == 1)
            &&& r->Ok_0.6 == bits_value(
                reader_bytes(*old(reader)),
                reader_position(*old(reader)) + 20,
                3,
            )
            &&& r->Ok_0.7 == bits_value(
                reader_bytes(*old(reader)),
                reader_position(*old(reader)) + 23,
                4,
            )
            &&& r->Ok_0.8 == bits_value(
                reader_bytes(*old(reader)),
                reader_position(*old(reader)) + 27,
                5,
            )
        },
{
    let eye_type = reader.read_u8(6)?;
    let unknown7 = reader.read_u8(2)?;
    let eye_rotation = reader.read_u8(3)?;
    let eye_vertical_pos = reader.read_u8(5)?;
    let eye_color = reader.read_u8(3)?;
    let unknown8 = reader.read_bool()?;
    let eye_size = reader.read_u8(3)?;
    let eye_horizontal_spacing = reader.read_u8(4)?;
    let unknown9 = reader.read_u8(5)?;
    Ok(
        (
            eye_type,
            unknown7,
            eye_rotation,
            eye_vertical_pos,
            eye_color,
            unknown8,
            eye_size,
            eye_horizontal_spacing,
            unknown9,
        ),
    )
}

/// Reads the fields of the nose: 2 bytes.
fn read_nose(reader: &mut BitReader<'_>) -> (r: Result<(u8, u8, u8, u8), BitReaderError>)
    ensures
        reader_bytes(*final(reader)) == reader_bytes(*old(reader)),
        reader_limit(*final(reader)) == reader_limit(*old(reader)),
        r is Ok <==> reader_position(*old(reader)) + 16 <= reader_limit(*old(reader)),
        r is Ok ==> {
            &&& reader_position(*final(reader)) == reader_position(*old(reader)) + 16
            &&& r->Ok_0.0 == bits_value(
                reader_bytes(*old(reader)),
                reader_position(*old(reader)) + 0,
                4,
            )
            &&& r->Ok_0.1 == bits_value(
                reader_bytes(*old(reader)),
                reader_position(*old(reader)) + 4,
                4,
            )
            &&& r->Ok_0.2 == bits_value(
                reader_bytes(*old(reader)),
                reader_position(*old(reader)) + 8,
                5,
            )
            &&& r->Ok_0.3 == bits_value(
                reader_bytes(*old(reader)),
                reader_position(*old(reader)) + 13,
                3,
            )
        },
{
    let nose_type = reader.read_u8(4)?;
    let nose_size = reader.read_u8(4)?;
    let nose_vertical_pos = reader.read_u8(5)?;
    let unknown10 = reader.read_u8(3)?;
    Ok((nose_type, nose_size, nose_vertical_pos, unknown10))
}

/// Reads the fields of the lips: 2 bytes.
fn read_lips(reader: &mut BitReader<'_>) -> (r: Result<(u8, u8, u8, u8), BitReaderError>)
    ensures
        reader_bytes(*final(reader)) == reader_bytes(*old(reader)),
        reader_limit(*final(reader)) == reader_limit(*old(reader)),
        r is Ok <==> reader_position(*old(reader)) + 16 <= reader_limit(*old(reader)),
        r is Ok ==> {
            &&& reader_position(*final(reader)) == reader_position(*old(reader)) + 16
            &&& r->Ok_0.0 == bits_value(
                reader_bytes(*old(reader)),
                reader_position(*old(reader)) + 0,
                5,
            )
            &&& r->Ok_0.1 == bits_value(
                reader_bytes(*old(reader)),
                reader_position(*old(reader)) + 5,
                2,
            )
            &&& r->Ok_0.2 == bits_value(
                reader_bytes(*old(reader)),
                reader_position(*old(reader)) + 7,
                4,
            )
            &&& r->Ok_0.3 == bits_value(
                reader_bytes(*old(reader)),
                reader_position(*old(reader)) + 11,
                5,
            )
        },
{
    let lip_type = reader.read_u8(5)?;
    let lip_color = reader.read_u8(2)?;
    let lip_size = reader.read_u8(4)?;
    let lip_vertical_pos = reader.read_u8(5)?;
    Ok((lip_type, lip_color, lip_size, lip_vertical_pos))
}

/// Reads the fields of the glasses: 2 bytes.
fn read_glasses(reader: &mut BitReader<'_>) -> (r: Result<(u8, u8, bool, u8, u8), BitReaderError>)
    ensures
        reader_bytes(*final(reader)) == reader_bytes(*old(reader)),
        reader_limit(*final(reader)) == reader_limit(*old(reader)),
        r is Ok <==> reader_position(*old(reader)) + 16 <= reader_limit(*old(reader)),
        r is Ok ==> {
            &&& reader_position(*final(reader)) == reader_position(*old(reader)) + 16
            &&& r->Ok_0.0 == bits_value(
                reader_bytes(*old(reader)),
                reader_position(*old(reader)) + 0,
                4,
            )
            &&& r->Ok_0.1 == bits_value(
                reader_bytes(*old(reader)),
                reader_position(*old(reader)) + 4,
                3,
            )
            &&& r->Ok_0.2 == (bit_of(
                reader_bytes(*old(reader)),
                reader_position(*old(reader)) + 7,
            ) == 1)
            &&& r->Ok_0.3 == bits_value(
                reader_bytes(*old(reader)),
                reader_position(*old(reader)) + 8,
                3,
            )
            &&& r->Ok_0.4 == bits_value(
                reader_bytes(*old(reader)),
                reader_position(*old(reader)) + 11,
                5,
            )
        },
{
    let glasses_type = reader.read_u8(4)?;
    let glasses_color = reader.read_u8(3)?;
    let unknown11 = reader.read_bool()?;
    let glasses_size = reader.read_u8(3)?;
    let glasses_vertical_pos = reader.read_u8(5)?;
    Ok((glasses_type, glasses_color, unknown11, glasses_size, glasses_vertical_pos))
}

/// Reads the fields of the beard and the mustache: 2 bytes.
fn read_facial_hair(reader: &mut BitReader<'_>) -> (r: Result<
    (u8, u8, u8, u8, u8),
    BitReaderError,
>)
    ensures
        reader_bytes(*final(reader)) == reader_bytes(*old(reader)),
        reader_limit(*final(reader)) == reader_limit(*old(reader)),
        r is Ok <==> reader_position(*old(reader)) + 16 <= reader_limit(*old(reader)),
        r is Ok ==> {
            &&& reader_position(*final(reader)) == reader_position(*old(reader)) + 16
            &&& r->Ok_0.0 == bits_value(
                reader_bytes(*old(reader)),
                reader_position(*old(reader)) + 0,
                2,
            )
            &&& r->Ok_0.1 == bits_value(
                reader_bytes(*old(reader)),
                reader_position(*old(reader)) + 2,
                2,
            )
            &&& r->Ok_0.2 == bits_value(
                reader_bytes(*old(reader)),
                reader_position(*old(reader)) + 4,
                3,
            )
            &&& r->Ok_0.3 == bits_value(
                reader_bytes(*old(reader)),
                reader_position(*old(reader)) + 7,
                4,
            )
            &&& r->Ok_0.4 == bits_value(
                reader_bytes(*old(reader)),
                reader_position(*old(reader)) + 11,
                5,
            )
        },
{
    let mustache_type = reader.read_u8(2)?;
    let beard_type = reader.read_u8(2)?;
    let facial_hair_color = reader.read_u8(3)?;
    let mustache_size = reader.read_u8(4)?;
    let mustache_vertical_pos = reader.read_u8(5)?;
    Ok((mustache_type, beard_type, facial_hair_color, mustache_size, mustache_vertical_pos))
}

/// Reads the fields of the mole: 2 bytes.
fn read_mole(reader: &mut BitReader<'_>) -> (r: Result<(bool, u8, u8, u8, bool), BitReaderError>)
    ensures
        reader_bytes(*final(reader)) == reader_bytes(*old(reader)),
        reader_limit(*final(reader)) == reader_limit(*old(reader)),
        r is Ok <==> reader_position(*old(reader)) + 16 <= reader_limit(*old(reader)),
        r is Ok ==> {
            &&& reader_position(*final(reader)) == reader_position(*old(reader)) + 16
            &&& r->Ok_0.0 == (bit_of(
                reader_bytes(*old(reader)),
                reader_position(*old(reader)) + 0,
            ) == 1)
            &&& r->Ok_0.1 == bits_value(
                reader_bytes(*old(reader)),
                reader_position(*old(reader)) + 1,
                4,
            )
            &&& r->Ok_0.2 == bits_value(
                reader_bytes(*old(reader)),
                reader_position(*old(reader)) + 5,
                5,
            )
            &&& r->Ok_0.3 == bits_value(
                reader_bytes(*old(reader)),
                reader_position(*old(reader)) + 10,
                5,
            )
            &&& r->Ok_0.4 == (bit_of(
                reader_bytes(*old(reader)),
                reader_position(*old(reader)) + 15,
            ) == 1)
        },
{
    let has_mole = reader.read_bool()?;
    let mole_size = reader.read_u8(4)?;
    let mole_vertical_pos = reader.read_u8(5)?;
    let mole_horizontal_pos = reader.read_u8(5)?;
    let unknown12 = reader.read_bool()?;
    Ok((has_mole, mole_size, mole_vertical_pos, mole_horizontal_pos, unknown12))
}

/// Reads the ten code units of a name and makes a text of them.
fn read_name(reader: &mut BitReader<'_>) -> (r: Result<String, BitReaderError>)
    ensures
        reader_bytes(*final(reader)) == reader_bytes(*old(reader)),
        reader_limit(*final(reader)) == reader_limit(*old(reader)),
        r is Ok <==> reader_position(*old(reader)) + 160 <= reader_limit(*old(reader)),
        r is Ok ==> r->Ok_0@ == name_text(
            name_units_at(reader_bytes(*old(reader)), reader_position(*old(reader))),
        ) && reader_position(*final(reader)) == reader_position(*old(reader)) + 160,
{
    let ghost start = reader_position(*reader);
    let ghost bytes = reader_bytes(*reader);
    let ghost limit = reader_limit(*reader);
    let mut name_chars: [u16; 10] = [0;10];
    let mut i: usize = 0;
    while i < 10
        invariant
            i <= 10,
            bytes == reader_bytes(*old(reader)),
            limit == reader_limit(*old(reader)),
            start == reader_position(*old(reader)),
            reader_bytes(*reader) == bytes,
            reader_limit(*reader) == limit,
            reader_position(*reader) == start + 16 * i,
            i > 0 ==> reader_position(*reader) <= limit,
            forall|k: int|
                0 <= k < i ==> name_chars@[k] == bits_value(bytes, (start + 16 * k) as nat, 16),
        decreases 10 - i,
    {
        name_chars[i] = reader.read_u16(16)?;
        i += 1;
    }
    assert(name_chars@ =~= name_units_at(bytes, start));
    Ok(get_name(&name_chars))
}

/// The text of the code units of a name.
pub fn get_name(name_chars: &[u16; 10]) -> (r: String)
    ensures
        r@ == name_text(name_chars@),
{
    let mut name = String::new();
    let mut i: usize = 0;
    assert(name_chars@.take(0) =~= Seq::empty());
    while i < 10
        invariant
            i <= 10,
            name@ == name_text(name_chars@.take(i as int)),
        decreases 10 - i,
    {
        let c = name_chars[i];
        proof {
            assert(name_chars@.take(i + 1).drop_last() =~= name_chars@.take(i as int));
        }
        if c != 0 {
            match char::from_u32(c as u32) {
                Some(ch) => name.push(ch),
                None => name.push('\u{FFFD}'),
            }
        }
        i += 1;
    }
    assert(name_chars@.take(10) =~= name_chars@);
    name
}

} // verus!
