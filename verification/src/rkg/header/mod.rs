//! The header of a ghost file as it stands, field by field.
//!
//! The fields follow one another without a gap, the first at the top of the
//! first byte; where a field is "at 0x08.6", it begins at bit 6 of byte
//! 0x08, counted from the top.

use vstd::prelude::*;
use vstd::slice::slice_subrange;
use bitreader::BitReader;
use bitreader::BitReaderError;
use crate::bit_reader::bit_of;
use crate::bit_reader::bits_value;
use crate::bit_reader::lemma_bit_of_view;
use crate::bit_reader::lemma_bits_value_of_byte;
use crate::bit_reader::lemma_bits_value_of_view;
use crate::byte_handler::bit_at;
use crate::byte_handler::field_at;
use crate::byte_handler::lemma_be_value_unfold;
use crate::byte_handler::view_over;
use crate::header::date::day_field;
use crate::header::date::month_field;
use crate::header::date::year_field;
use crate::header::in_game_time::in_game_time_of;
use crate::header::lap_time_of;
use crate::bit_reader::reader_bytes;
use crate::bit_reader::reader_limit;
use crate::bit_reader::reader_position;
use crate::rkg::header::finish_time::time_at;
use crate::rkg::header::finish_time::FinishTime;
use crate::rkg::header::mii::holds_fields_of;
use crate::rkg::header::mii::Mii;

pub mod finish_time;
pub mod mii;

verus! {

/// The number of bytes of a header.
pub const HEADER_LENGTH: usize = 0x88;

/// The number of laps that a header has times for.
pub const LAP_TIMES: usize = 10;

pub struct Header {
    /// Four bytes at 0x00: "RKGD".
    pub rkgd: String,
    /// Three bytes at 0x04.
    pub finish_time: FinishTime,
    /// Six bits at 0x07.
    pub track_id: u8,
    /// Two bits at 0x07.6, most likely padding.
    pub unknown1: u8,
    /// Six bits at 0x08.
    pub vehicle_id: u8,
    /// Six bits at 0x08.6.
    pub character_id: u8,
    /// Seven bits at 0x09.4: the year, counted from 2000.
    pub year_set: u8,
    /// Four bits at 0x0A.3.
    pub month_set: u8,
    /// Five bits at 0x0A.7.
    pub day_set: u8,
    /// Four bits at 0x0B.4.
    pub controller_id: u8,
    /// Four bits at 0x0C, always zero as it seems.
    pub unknown2: u8,
    /// One bit at 0x0C.4.
    pub is_compressed: bool,
    /// Two bits at 0x0C.5, always zero as it seems.
    pub unknown3: u8,
    /// Seven bits at 0x0C.7.
    pub ghost_type: u8,
    /// One bit at 0x0D.6.
    pub is_automatic_drift: bool,
    /// One bit at 0x0D.7, most likely padding.
    pub unknown4: bool,
    /// Two bytes at 0x0E.
    pub decompressed_input_data_length: u16,
    /// One byte at 0x10.
    pub lap_count: u8,
    /// Three bytes for each lap, from 0x11 on: the times of the laps that
    /// were driven, as far as the header has room for them.
    pub lap_split_times: Vec<FinishTime>,
    /// One byte at 0x34.
    pub country_code: u8,
    /// One byte at 0x35.
    pub state_code: u8,
    /// Two bytes at 0x36.
    pub location_code: u16,
    /// Four bytes at 0x38, mostly zero.
    pub unknown6: u32,
    /// 0x4A bytes at 0x3C.
    pub mii_data: Mii,
    /// Two bytes at 0x86.
    pub mii_crc16: u16,
}

/// The text of the four bytes that open a header, each byte one character.
pub open spec fn tag_text(data: Seq<u8>) -> Seq<char> {
    Seq::new(4, |i: int| data[i] as char)
}

/// The number of laps whose times a header holds.
pub open spec fn laps_held(lap_count: u8) -> nat {
    if lap_count <= LAP_TIMES {
        lap_count as nat
    } else {
        LAP_TIMES as nat
    }
}

/// Whether `header` holds what the bytes of `data` hold, field by field.
pub open spec fn holds_header_of(header: Header, data: Seq<u8>) -> bool {
    &&& header.rkgd@ == tag_text(data)
    &&& header.finish_time@ == time_at(data, 0x20)
    &&& header.track_id == bits_value(data, 0x38, 6)
    &&& header.unknown1 == bits_value(data, 0x3E, 2)
    &&& header.vehicle_id == bits_value(data, 0x40, 6)
    &&& header.character_id == bits_value(data, 0x46, 6)
    &&& header.year_set == bits_value(data, 0x4C, 7)
    &&& header.month_set == bits_value(data, 0x53, 4)
    &&& header.day_set == bits_value(data, 0x57, 5)
    &&& header.controller_id == bits_value(data, 0x5C, 4)
    &&& header.unknown2 == bits_value(data, 0x60, 4)
    &&& header.is_compressed == (bit_of(data, 0x64) == 1)
    &&& header.unknown3 == bits_value(data, 0x65, 2)
    &&& header.ghost_type == bits_value(data, 0x67, 7)
    &&& header.is_automatic_drift == (bit_of(data, 0x6E) == 1)
    &&& header.unknown4 == (bit_of(data, 0x6F) == 1)
    &&& header.decompressed_input_data_length == bits_value(data, 0x70, 16)
    &&& header.lap_count == bits_value(data, 0x80, 8)
    &&& header.lap_split_times@.len() == laps_held(header.lap_count)
    &&& forall|lap: int|
        0 <= lap < laps_held(header.lap_count) ==> (#[trigger] header.lap_split_times@[lap])@
            == time_at(data, (0x88 + 24 * lap) as nat)
    &&& header.country_code == bits_value(data, 0x1A0, 8)
    &&& header.state_code == bits_value(data, 0x1A8, 8)
    &&& header.location_code == bits_value(data, 0x1B0, 16)
    &&& header.unknown6 == bits_value(data, 0x1C0, 16) * 0x1_0000 + bits_value(data, 0x1D0, 16)
    &&& holds_fields_of(header.mii_data, data, 0x1E0)
    &&& header.mii_crc16 == bits_value(data, 0x430, 16)
}

/// A time as a reader reads it is the time of the view over its three
/// bytes.
pub proof fn lemma_time_at_is_time_of_view(data: Seq<u8>, first: nat)
    requires
        first + 3 <= data.len(),
    ensures
        time_at(data, 8 * first) == in_game_time_of(
            view_over(data, first as int, (first + 3) as int),
        ),
{
    lemma_bits_value_of_view(data, first, 3, 0, 7);
    lemma_bits_value_of_view(data, first, 3, 7, 7);
    lemma_bits_value_of_view(data, first, 3, 14, 10);
}

/// The header as it stands holds the numbers that the header as read is
/// made of: each field that a reader takes bit by bit is the field of the
/// view over its bytes that the typed header looks at.
pub proof fn lemma_header_as_it_stands_is_header_as_read(header: Header, data: Seq<u8>)
    requires
        data.len() == HEADER_LENGTH,
        holds_header_of(header, data),
    ensures
        header.finish_time@ == in_game_time_of(view_over(data, 0x04, 0x07)),
        header.track_id == field_at(data[0x07] as u32, 2, 6),
        header.vehicle_id == field_at(view_over(data, 0x08, 0x0A), 10, 6),
        header.character_id == field_at(view_over(data, 0x08, 0x0A), 4, 6),
        2000 + header.year_set == year_field(view_over(data, 0x09, 0x0C)),
        header.month_set == month_field(view_over(data, 0x09, 0x0C)),
        header.day_set == day_field(view_over(data, 0x09, 0x0C)),
        header.controller_id == field_at(data[0x0B] as u32, 0, 4),
        header.is_compressed == bit_at(data[0x0C] as u32, 3),
        header.ghost_type == field_at(view_over(data, 0x0C, 0x0E), 2, 7),
        header.is_automatic_drift == bit_at(data[0x0D] as u32, 1),
        header.decompressed_input_data_length == data[0x0E] * 0x100 + data[0x0F],
        header.lap_count == data[0x10],
        forall|lap: int|
            0 <= lap < laps_held(header.lap_count) ==> (#[trigger] header.lap_split_times@[lap])@
                == lap_time_of(data, lap),
        header.country_code == data[0x34],
        header.state_code == data[0x35],
        header.location_code == data[0x36] * 0x100 + data[0x37],
        header.mii_crc16 == data[0x86] * 0x100 + data[0x87],
{
    vstd::arithmetic::power2::lemma2_to64();
    lemma_time_at_is_time_of_view(data, 4);
    lemma_be_value_unfold(data.subrange(0x07, 0x08));
    lemma_bits_value_of_view(data, 0x07, 1, 0, 6);
    lemma_bits_value_of_view(data, 0x08, 2, 0, 6);
    lemma_bits_value_of_view(data, 0x08, 2, 6, 6);
    lemma_bits_value_of_view(data, 0x09, 3, 4, 7);
    lemma_bits_value_of_view(data, 0x09, 3, 11, 4);
    lemma_bits_value_of_view(data, 0x09, 3, 15, 5);
    lemma_be_value_unfold(data.subrange(0x0B, 0x0C));
    lemma_bits_value_of_view(data, 0x0B, 1, 4, 4);
    lemma_be_value_unfold(data.subrange(0x0C, 0x0D));
    lemma_bit_of_view(data, 0x0C, 1, 4);
    lemma_bits_value_of_view(data, 0x0C, 2, 7, 7);
    lemma_be_value_unfold(data.subrange(0x0D, 0x0E));
    lemma_bit_of_view(data, 0x0D, 1, 6);
    lemma_be_value_unfold(data.subrange(0x0E, 0x10));
    lemma_bits_value_of_view(data, 0x0E, 2, 0, 16);
    lemma_bits_value_of_byte(data, 0x10);
    lemma_bits_value_of_byte(data, 0x34);
    lemma_bits_value_of_byte(data, 0x35);
    lemma_be_value_unfold(data.subrange(0x36, 0x38));
    lemma_bits_value_of_view(data, 0x36, 2, 0, 16);
    lemma_be_value_unfold(data.subrange(0x86, 0x88));
    lemma_bits_value_of_view(data, 0x86, 2, 0, 16);
    assert forall|lap: int| 0 <= lap < laps_held(header.lap_count) implies (
    #[trigger] header.lap_split_times@[lap])@ == lap_time_of(data, lap) by {
        lemma_time_at_is_time_of_view(data, (0x11 + 3 * lap) as nat);
    }
}

fn byte_char(byte: u8) -> (r: char)
    ensures
        r == byte as char,
{
    byte as char
}

fn read_tag(reader: &mut BitReader<'_>) -> (r: Result<String, BitReaderError>)
    requires
        reader_position(*old(reader)) == 0,
    ensures
        reader_bytes(*final(reader)) == reader_bytes(*old(reader)),
        reader_limit(*final(reader)) == reader_limit(*old(reader)),
        r is Ok <==> 32 <= reader_limit(*old(reader)),
        r is Ok ==> reader_position(*final(reader)) == 32 && r->Ok_0@ == Seq::new(
            4,
            |i: int| bits_value(reader_bytes(*old(reader)), (8 * i) as nat, 8) as u8 as char,
        ),
{
    let ghost bytes = reader_bytes(*reader);
    let ghost limit = reader_limit(*reader);
    let mut tag = String::new();
    let mut i: usize = 0;
    while i < 4
        invariant
            i <= 4,
            bytes == reader_bytes(*old(reader)),
            limit == reader_limit(*old(reader)),
            reader_bytes(*reader) == bytes,
            reader_limit(*reader) == limit,
            reader_position(*reader) == 8 * i,
            i > 0 ==> reader_position(*reader) <= limit,
            tag@ == Seq::new(i as nat, |k: int| bits_value(bytes, (8 * k) as nat, 8) as u8 as char),
        decreases 4 - i,
    {
        let byte = reader.read_u8(8)?;
        let ghost before = tag@;
        tag.push(byte_char(byte));
        i += 1;
        assert(tag@ =~= Seq::new(
            i as nat,
            |k: int| bits_value(bytes, (8 * k) as nat, 8) as u8 as char,
        ));
    }
    Ok(tag)
}

fn read_lap_times(reader: &mut BitReader<'_>, lap_count: u8) -> (r: Result<
    Vec<FinishTime>,
    BitReaderError,
>)
    requires
        reader_position(*old(reader)) == 0x88,
    ensures
        reader_bytes(*final(reader)) == reader_bytes(*old(reader)),
        reader_limit(*final(reader)) == reader_limit(*old(reader)),
        r is Ok <==> 0x1A0 <= reader_limit(*old(reader)),
        r is Ok ==> {
            &&& reader_position(*final(reader)) == 0x1A0
            &&& r->Ok_0@.len() == laps_held(lap_count)
            &&& forall|lap: int|
                0 <= lap < laps_held(lap_count) ==> (#[trigger] r->Ok_0@[lap])@ == time_at(
                    reader_bytes(*old(reader)),
                    (0x88 + 24 * lap) as nat,
                )
        },
{
    let ghost bytes = reader_bytes(*reader);
    let ghost limit = reader_limit(*reader);
    let mut lap_split_times: Vec<FinishTime> = Vec::new();
    // the room for the times of the laps ends at byte 0x34
    let mut lap: usize = 0;
    while lap < LAP_TIMES
        invariant
            lap <= LAP_TIMES,
            bytes == reader_bytes(*old(reader)),
            limit == reader_limit(*old(reader)),
            reader_bytes(*reader) == bytes,
            reader_limit(*reader) == limit,
            reader_position(*reader) == 0x88 + 24 * lap,
            lap_split_times@.len() == if lap <= laps_held(lap_count) {
                lap as nat
            } else {
                laps_held(lap_count)
            },
            forall|k: int|
                0 <= k < lap_split_times@.len() ==> (#[trigger] lap_split_times@[k])@ == time_at(
                    bytes,
                    (0x88 + 24 * k) as nat,
                ),
        decreases LAP_TIMES - lap,
    {
        let minutes = reader.read_u8(7)?;
        let seconds = reader.read_u8(7)?;
        let milliseconds = reader.read_u16(10)?;
        if lap < lap_count as usize {
            lap_split_times.push(FinishTime::new(minutes, seconds, milliseconds));
        }
        lap += 1;
    }
    let mut rest: usize = 0;
    while rest < 5
        invariant
            rest <= 5,
            bytes == reader_bytes(*old(reader)),
            limit == reader_limit(*old(reader)),
            reader_bytes(*reader) == bytes,
            reader_limit(*reader) == limit,
            reader_position(*reader) == 0x178 + 8 * rest,
            rest > 0 ==> reader_position(*reader) <= limit,
        decreases 5 - rest,
    {
        let _ = reader.read_u8(8)?;
        rest += 1;
    }
    Ok(lap_split_times)
}

impl Header {
    /// Reads a header out of its 0x88 bytes. Bytes behind them are not
    /// looked at; where there are fewer, the error of the reader comes back.
    pub fn new(rkg_data: &[u8]) -> (r: Result<Self, BitReaderError>)
        ensures
            r is Ok <==> rkg_data@.len() >= HEADER_LENGTH,
            r is Ok ==> holds_header_of(r->Ok_0, rkg_data@.take(HEADER_LENGTH as int)),
    {
        let rkg_data = if rkg_data.len() > HEADER_LENGTH {
            slice_subrange(rkg_data, 0, HEADER_LENGTH)
        } else {
            rkg_data
        };
        let ghost data = rkg_data@;
        let mut rkg_reader: BitReader<'_> = BitReader::new(rkg_data);

        let rkgd = read_tag(&mut rkg_reader)?;
        let minutes = rkg_reader.read_u8(7)?;
        let seconds = rkg_reader.read_u8(7)?;
        let milliseconds = rkg_reader.read_u16(10)?;
        let finish_time = FinishTime::new(minutes, seconds, milliseconds);
        let track_id = rkg_reader.read_u8(6)?;
        let unknown1 = rkg_reader.read_u8(2)?;
        let vehicle_id = rkg_reader.read_u8(6)?;
        let character_id = rkg_reader.read_u8(6)?;
        let year_set = rkg_reader.read_u8(7)?;
        let month_set = rkg_reader.read_u8(4)?;
        let day_set = rkg_reader.read_u8(5)?;
        let controller_id = rkg_reader.read_u8(4)?;
        let unknown2 = rkg_reader.read_u8(4)?;
        let is_compressed = rkg_reader.read_bool()?;
        let unknown3 = rkg_reader.read_u8(2)?;
        let ghost_type = rkg_reader.read_u8(7)?;
        let is_automatic_drift = rkg_reader.read_bool()?;
        let unknown4 = rkg_reader.read_bool()?;
        let decompressed_input_data_length = rkg_reader.read_u16(16)?;
        let lap_count = rkg_reader.read_u8(8)?;
        let lap_split_times = read_lap_times(&mut rkg_reader, lap_count)?;
        let country_code = rkg_reader.read_u8(8)?;
        let state_code = rkg_reader.read_u8(8)?;
        let location_code = rkg_reader.read_u16(16)?;
        let unknown6_high = rkg_reader.read_u16(16)?;
        let unknown6_low = rkg_reader.read_u16(16)?;
        let unknown6 = unknown6_high as u32 * 0x1_0000 + unknown6_low as u32;

        let mii_data = Mii::from_reader(&mut rkg_reader)?;
        let mii_crc16 = rkg_reader.read_u16(16)?;

        proof {
            assert(data =~= rkg_data@.take(HEADER_LENGTH as int));
            lemma_bits_value_of_byte(data, 0);
            lemma_bits_value_of_byte(data, 1);
            lemma_bits_value_of_byte(data, 2);
            lemma_bits_value_of_byte(data, 3);
            assert(rkgd@ =~= tag_text(data));
        }
        Ok(
            Self {
                rkgd,
                finish_time,
                track_id,
                unknown1,
                vehicle_id,
                character_id,
                year_set,
                month_set,
                day_set,
                controller_id,
                unknown2,
                is_compressed,
                unknown3,
                ghost_type,
                is_automatic_drift,
                unknown4,
                decompressed_input_data_length,
                lap_count,
                lap_split_times,
                country_code,
                state_code,
                location_code,
                unknown6,
                mii_data,
                mii_crc16,
            },
        )
    }

    pub fn rkgd(&self) -> (r: &str)
        ensures
            r@ == self.rkgd@,
    {
        self.rkgd.as_str()
    }

    pub fn finish_time(&self) -> (r: &FinishTime)
        ensures
            r@ == self.finish_time@,
    {
        &self.finish_time
    }

    pub fn track_id(&self) -> (r: u8)
        ensures
            r == self.track_id,
    {
        self.track_id
    }

    pub fn unknown1(&self) -> (r: u8)
        ensures
            r == self.unknown1,
    {
        self.unknown1
    }

    pub fn vehicle_id(&self) -> (r: u8)
        ensures
            r == self.vehicle_id,
    {
        self.vehicle_id
    }

    pub fn character_id(&self) -> (r: u8)
        ensures
            r == self.character_id,
    {
        self.character_id
    }

    pub fn year_set(&self) -> (r: u8)
        ensures
            r == self.year_set,
    {
        self.year_set
    }

    pub fn month_set(&self) -> (r: u8)
        ensures
            r == self.month_set,
    {
        self.month_set
    }

    pub fn day_set(&self) -> (r: u8)
        ensures
            r == self.day_set,
    {
        self.day_set
    }

    pub fn controller_id(&self) -> (r: u8)
        ensures
            r == self.controller_id,
    {
        self.controller_id
    }

    pub fn unknown2(&self) -> (r: u8)
        ensures
            r == self.unknown2,
    {
        self.unknown2
    }

    pub fn is_compressed(&self) -> (r: bool)
        ensures
            r == self.is_compressed,
    {
        self.is_compressed
    }

    pub fn unknown3(&self) -> (r: u8)
        ensures
            r == self.unknown3,
    {
        self.unknown3
    }

    pub fn ghost_type(&self) -> (r: u8)
        ensures
            r == self.ghost_type,
    {
        self.ghost_type
    }

    pub fn is_automatic_drift(&self) -> (r: bool)
        ensures
            r == self.is_automatic_drift,
    {
        self.is_automatic_drift
    }

    pub fn unknown4(&self) -> (r: bool)
        ensures
            r == self.unknown4,
    {
        self.unknown4
    }

    pub fn decompressed_input_data_length(&self) -> (r: u16)
        ensures
            r == self.decompressed_input_data_length,
    {
        self.decompressed_input_data_length
    }

    pub fn lap_count(&self) -> (r: u8)
        ensures
            r == self.lap_count,
    {
        self.lap_count
    }

    pub fn lap_split_times(&self) -> (r: &[FinishTime])
        ensures
            r@ == self.lap_split_times@,
    {
        self.lap_split_times.as_slice()
    }

    pub fn country_code(&self) -> (r: u8)
        ensures
            r == self.country_code,
    {
        self.country_code
    }

    pub fn state_code(&self) -> (r: u8)
        ensures
            r == self.state_code,
    {
        self.state_code
    }

    pub fn location_code(&self) -> (r: u16)
        ensures
            r == self.location_code,
    {
        self.location_code
    }

    pub fn unknown6(&self) -> (r: u32)
        ensures
            r == self.unknown6,
    {
        self.unknown6
    }

    pub fn mii_data(&self) -> (r: &Mii)
        ensures
            *r == self.mii_data,
    {
        &self.mii_data
    }

    pub fn mii_crc16(&self) -> (r: u16)
        ensures
            r == self.mii_crc16,
    {
        self.mii_crc16
    }
}

} // verus!
