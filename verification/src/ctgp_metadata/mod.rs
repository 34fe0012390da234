//! The footer that CTGP appends to a ghost file.
//!
//! The footer ends the file. Its last bytes are, from the end: four bytes of
//! a checksum of the file, the magic bytes "CKGD", the length of the footer
//! as a big-endian number of four bytes, and one byte of the version of the
//! footer. The footer opens with the security data, whose length depends on
//! the version, and the fields below follow at fixed places behind it:
//!
//! | place behind the security data | field                               |
//! |--------------------------------|-------------------------------------|
//! | 0x00 - 0x13                    | the SHA-1 of the track              |
//! | 0x14 - 0x1B                    | the player                          |
//! | 0x1C - 0x1F                    | the correction of the finish time   |
//! | 0x20 - 0x23                    | the version of CTGP                 |
//! | 0x24 - 0x25                    | a doubtful crossing of the line, for each lap |
//! | 0x38 - 0x5F                    | the corrections of the laps, the last lap first |
//! | 0x60 - 0x77                    | the clock at the end and at the start, and the time paused |
//! | 0x78                           | four flags                          |
//! | 0x79 - 0x7B                    | the laps of the three mushrooms     |
//! | 0x7C                           | the category                        |
//! | 0x7D                           | eight flags                         |

use vstd::prelude::*;
use vstd::slice::slice_subrange;
use vstd::slice::slice_to_vec;
use crate::byte_handler::bit_at;
use crate::byte_handler::view_over;
use crate::byte_handler::ByteHandler;
use crate::ctgp_metadata::category::category_of;
use crate::ctgp_metadata::category::Category;
use crate::ctgp_metadata::category::CategoryError;
use crate::ctgp_metadata::exact_finish_time::ExactFinishTime;
use crate::ctgp_metadata::subtraction::correction_in_picoseconds;
use crate::ctgp_metadata::subtraction::correction_picoseconds;
use crate::header::in_game_time::in_game_time_of;
use crate::header::in_game_time::InGameTime;
use crate::header::in_game_time::InGameTimeError;
use crate::header::lap_time_of;
use crate::header::HEADER_LENGTH;
use crate::header::MOST_LAPS;
use crate::input_data::count_at;
use crate::input_data::frames_written;
use crate::input_data::input_payload;
use crate::input_data::record_at;
use crate::input_data::unpack_input;
use crate::input_data::InputDataError;

pub mod category;
pub mod exact_finish_time;
pub mod subtraction;

verus! {

#[derive(Clone, Copy, Debug, PartialEq)]
pub enum CTGPMetadataError {
    NotCKGD,
    InvalidMetadataVersion,
    /// The footer is too short for its fields, or longer than what follows
    /// the header.
    TryFromSliceError,
    CategoryError(CategoryError),
    InGameTimeError(InGameTimeError),
    /// The header counts more laps than the footer has room for.
    LapCountInvalid,
    /// The input data between the header and the footer cannot be read.
    InputDataError(InputDataError),
    /// A mushroom was used in a lap that the footer has no room for.
    ShroomstratLapInvalid,
}

/// The four bytes that mark a footer of CTGP: "CKGD".
pub open spec fn ckgd_magic() -> Seq<u8> {
    seq![0x43u8, 0x4Bu8, 0x47u8, 0x44u8]
}

/// The picoseconds of a millisecond.
pub const PICOSECONDS_PER_MILLISECOND: i64 = 1_000_000_000;

/// Whether a file ends in a footer of CTGP: it has the 13 bytes that end
/// one, with the magic bytes among them.
pub open spec fn is_ctgp(data: Seq<u8>) -> bool {
    data.len() >= 13 && data.subrange(data.len() - 8, data.len() - 4) == ckgd_magic()
}

/// The length that the footer of a file of at least 13 bytes declares.
pub open spec fn footer_length(data: Seq<u8>) -> u32 {
    view_over(data, data.len() - 12, data.len() - 8)
}

/// The version that the footer of a file of at least 13 bytes declares.
pub open spec fn footer_version(data: Seq<u8>) -> u8 {
    data[data.len() - 13]
}

/// The length of the security data of a footer of a version.
pub open spec fn security_length(version: u8) -> int {
    if version < 7 {
        0x44
    } else {
        0x54
    }
}

/// The bytes of the footer of a file.
pub open spec fn footer_bytes(data: Seq<u8>) -> Seq<u8> {
    data.subrange(data.len() - footer_length(data), data.len() as int)
}

/// The bytes between the header and the footer of a file: the input region.
pub open spec fn input_region(data: Seq<u8>) -> Seq<u8> {
    data.subrange(HEADER_LENGTH as int, data.len() - footer_length(data))
}

/// The big-endian number in the eight bytes of `data` at `at`.
pub open spec fn be64_at(data: Seq<u8>, at: int) -> u64 {
    (view_over(data, at, at + 4) * 0x1_0000_0000 + view_over(data, at + 4, at + 8)) as u64
}

/// The place in a footer, behind its security data, at `offset`.
pub open spec fn place(data: Seq<u8>, offset: int) -> int {
    security_length(footer_version(data)) + offset
}

/// Where the carry of the corrections of the laps stands: the sum of the
/// corrections of the laps so far, and what is taken off the next
/// correction that is larger than a millisecond.
pub struct LapCarry {
    pub previous: int,
    pub carry: int,
}

/// The correction of a lap whose stored correction is `raw`, and where the
/// carry stands behind that lap.
///
/// The stored corrections add up from lap to lap, so the sum of those before
/// comes off first. Where more than a millisecond is left, the carry comes
/// off too, and the carry changes over: from nothing to a millisecond, or
/// back.
pub open spec fn lap_step(raw: int, state: LapCarry) -> (int, LapCarry) {
    let left = raw - state.previous;
    if left > PICOSECONDS_PER_MILLISECOND {
        (
            left - state.carry,
            LapCarry {
                previous: state.previous + left - state.carry,
                carry: if state.carry == 0 {
                    PICOSECONDS_PER_MILLISECOND as int
                } else {
                    0
                },
            },
        )
    } else {
        (left, LapCarry { previous: state.previous + left, carry: state.carry })
    }
}

/// Where the carry stands behind the first `laps` laps.
pub open spec fn carry_after(raw: Seq<int>, laps: nat) -> LapCarry
    decreases laps,
{
    if laps == 0 {
        LapCarry { previous: 0, carry: 0 }
    } else {
        lap_step(raw[laps - 1], carry_after(raw, (laps - 1) as nat)).1
    }
}

/// The correction of the lap of number `lap`, counted from 0, in
/// picoseconds.
pub open spec fn lap_correction(raw: Seq<int>, lap: int) -> int {
    lap_step(raw[lap], carry_after(raw, lap as nat)).0
}

/// What is left of the stored correction of a lap once the corrections of
/// the laps before are taken off.
pub open spec fn left_of_stored(raw: Seq<int>, lap: int) -> int {
    raw[lap] - carry_after(raw, lap as nat).previous
}

/// The carry never grows beyond a millisecond: it is nothing or one
/// millisecond, whatever the stored corrections are.
pub proof fn lemma_carry_is_one_millisecond_at_most(raw: Seq<int>, laps: nat)
    ensures
        carry_after(raw, laps).carry == 0 || carry_after(raw, laps).carry
            == PICOSECONDS_PER_MILLISECOND,
    decreases laps,
{
    if laps > 0 {
        lemma_carry_is_one_millisecond_at_most(raw, (laps - 1) as nat);
    }
}

/// The corrections of the laps add up: behind each lap, their sum is the
/// stored correction of that lap, less the carry where it came off. The
/// carry comes off, and changes over, exactly where more than a millisecond
/// is left.
pub proof fn lemma_corrections_add_up(raw: Seq<int>, lap: nat)
    ensures
        carry_after(raw, lap + 1).previous == carry_after(raw, lap).previous + lap_correction(
            raw,
            lap as int,
        ),
        left_of_stored(raw, lap as int) <= PICOSECONDS_PER_MILLISECOND ==> {
            &&& lap_correction(raw, lap as int) == left_of_stored(raw, lap as int)
            &&& carry_after(raw, lap + 1).previous == raw[lap as int]
            &&& carry_after(raw, lap + 1).carry == carry_after(raw, lap).carry
        },
        left_of_stored(raw, lap as int) > PICOSECONDS_PER_MILLISECOND ==> {
            &&& lap_correction(raw, lap as int) == left_of_stored(raw, lap as int) - carry_after(
                raw,
                lap,
            ).carry
            &&& carry_after(raw, lap + 1).previous == raw[lap as int] - carry_after(raw, lap).carry
            &&& carry_after(raw, lap + 1).carry != carry_after(raw, lap).carry
        },
{
    lemma_carry_is_one_millisecond_at_most(raw, lap);
    assert(carry_after(raw, lap + 1) == lap_step(raw[lap as int], carry_after(raw, lap)).1);
}

/// The correction of a lap is at least nothing and less than a millisecond
/// exactly where what is left of the stored correction is so, or is more by
/// less than the millisecond of carry that stands then.
pub proof fn lemma_correction_within_millisecond(raw: Seq<int>, lap: nat)
    ensures
        0 <= lap_correction(raw, lap as int) < PICOSECONDS_PER_MILLISECOND <==> 0 <= left_of_stored(
            raw,
            lap as int,
        ) < PICOSECONDS_PER_MILLISECOND || (carry_after(raw, lap).carry
            == PICOSECONDS_PER_MILLISECOND && PICOSECONDS_PER_MILLISECOND < left_of_stored(
            raw,
            lap as int,
        ) < 2 * PICOSECONDS_PER_MILLISECOND),
{
    lemma_carry_is_one_millisecond_at_most(raw, lap);
}

/// A time that shows less than a thousand milliseconds, with a correction
/// of at least nothing and less than a millisecond, has less than a second
/// of picoseconds, and nothing wraps around.
pub proof fn lemma_corrected_time_within_second(milliseconds: u16, correction: int)
    requires
        milliseconds < 1000,
        0 <= correction < PICOSECONDS_PER_MILLISECOND,
    ensures
        exact_picoseconds(milliseconds, correction) == milliseconds * PICOSECONDS_PER_MILLISECOND
            + correction,
        exact_picoseconds(milliseconds, correction) < 1_000_000_000_000,
{
    lemma_exact_picoseconds_within_second(milliseconds, correction);
}

/// Where the milliseconds shown and the correction together are at least
/// nothing and less than a second, they are the picoseconds of the exact
/// time: nothing wraps around.
pub proof fn lemma_exact_picoseconds_within_second(milliseconds: u16, correction: int)
    requires
        0 <= milliseconds * PICOSECONDS_PER_MILLISECOND + correction < 1_000_000_000_000,
    ensures
        exact_picoseconds(milliseconds, correction) == milliseconds * PICOSECONDS_PER_MILLISECOND
            + correction,
        exact_picoseconds(milliseconds, correction) < 1_000_000_000_000,
{
    vstd::arithmetic::div_mod::lemma_small_mod(
        (milliseconds * PICOSECONDS_PER_MILLISECOND + correction) as nat,
        0x1_0000_0000_0000_0000,
    );
}

/// The picoseconds of a time of which the game shows `milliseconds` and
/// whose correction is `correction`, as an unsigned number of 64 bits holds
/// them: a sum below zero wraps around.
pub open spec fn exact_picoseconds(milliseconds: u16, correction: int) -> u64 {
    ((milliseconds * PICOSECONDS_PER_MILLISECOND + correction) % 0x1_0000_0000_0000_0000) as u64
}

/// The exact time to a time that the game shows.
pub open spec fn exact_time(shown: InGameTime, correction: int) -> ExactFinishTime {
    ExactFinishTime {
        minutes: shown.minutes,
        seconds: shown.seconds,
        picoseconds: exact_picoseconds(shown.milliseconds, correction),
    }
}

/// The stored corrections of `laps` laps, in picoseconds. That of the first
/// lap stands at `first`, and that of each later lap four bytes before the
/// one of the lap before.
pub open spec fn stored_corrections_at(footer: Seq<u8>, first: int, laps: nat) -> Seq<int> {
    Seq::new(
        laps,
        |lap: int| correction_picoseconds(view_over(footer, first - 4 * lap, first + 4 - 4 * lap)) as int,
    )
}

/// The exact times of ten laps: those of the first `laps` laps of a header,
/// then zero times.
pub open spec fn exact_lap_times_of(header: Seq<u8>, stored: Seq<int>, laps: nat) -> Seq<
    ExactFinishTime,
> {
    Seq::new(
        MOST_LAPS as nat,
        |lap: int|
            if lap < laps {
                exact_time(lap_time_of(header, lap), lap_correction(stored, lap))
            } else {
                ExactFinishTime { minutes: 0, seconds: 0, picoseconds: 0 }
            },
    )
}

/// The frames at which the race was paused: for each record of the face
/// button stream that bears the pause mask, among the first `count`, the
/// frame at which it begins, the first frame being frame 1.
pub open spec fn pause_frames_of(input: Seq<u8>, count: nat) -> Seq<u32>
    decreases count,
{
    if count == 0 {
        Seq::empty()
    } else {
        let before = pause_frames_of(input, (count - 1) as nat);
        if record_at(input, 8, count - 1)[0] & 0x40 != 0 {
            before.push((1 + frames_written(input, 8, (count - 1) as nat)) as u32)
        } else {
            before
        }
    }
}

/// The number of mushrooms used in each of ten laps, after the first
/// `count` of the three mushrooms, whose laps stand at `at`; a lap of 0
/// stands for a mushroom that was not used.
pub open spec fn shroomstrat_of(footer: Seq<u8>, at: int, count: nat) -> Seq<u8>
    decreases count,
{
    if count == 0 {
        Seq::new(MOST_LAPS as nat, |lap: int| 0u8)
    } else {
        let before = shroomstrat_of(footer, at, (count - 1) as nat);
        let lap = footer[at + count - 1];
        if 1 <= lap <= MOST_LAPS {
            before.update(lap - 1, (before[lap - 1] + 1) as u8)
        } else {
            before
        }
    }
}

/// What a footer holds.
pub struct CTGPMetadataView {
    pub security_data: Seq<u8>,
    pub track_sha1: Seq<u8>,
    pub player_id: u64,
    pub exact_finish_time: ExactFinishTime,
    /// The four bytes of the version of CTGP, from version 2 of the footer
    /// on.
    pub ctgp_version: Option<Seq<u8>>,
    /// For each of ten laps, whether the line was crossed doubtfully, from
    /// version 2 of the footer on.
    pub lap_split_dubious_intersections: Option<Seq<bool>>,
    /// The exact times of ten laps: those of the laps that were driven,
    /// then zero times.
    pub exact_lap_times: Seq<ExactFinishTime>,
    /// The clock of the console at the end of the race, in ticks.
    pub rtc_race_end: u64,
    /// The clock of the console at the start of the race, in ticks.
    pub rtc_race_begins: u64,
    /// The time for which the race was paused, in ticks.
    pub rtc_time_paused: u64,
    pub pause_frames: Seq<u32>,
    pub my_stuff_enabled: bool,
    pub my_stuff_used: bool,
    pub usb_gamecube_enabled: bool,
    pub final_lap_dubious_intersection: bool,
    pub shroomstrat: Seq<u8>,
    pub cannoned: bool,
    pub went_oob: bool,
    pub has_slowdown: bool,
    pub has_rapidfire: bool,
    pub dubious_ghost: bool,
    pub has_mii_data_replaced: bool,
    pub has_name_replaced: bool,
    pub respawns: bool,
    pub category: Category,
    pub metadata_version: u8,
    pub metadata_size: u32,
    pub lap_count: u8,
}

/// The first thing that is wrong with the fields of a footer whose security
/// data has `security` bytes, if anything is: a mushroom in a lap that
/// there is no room for, or a category that does not exist.
pub open spec fn fields_fault(footer: Seq<u8>, security: int) -> Option<CTGPMetadataError> {
    if footer[security + 0x79] > MOST_LAPS || footer[security + 0x7A] > MOST_LAPS || footer[security
        + 0x7B] > MOST_LAPS {
        Some(CTGPMetadataError::ShroomstratLapInvalid)
    } else if category_of(footer[security + 0x7C]) is Err {
        Some(CTGPMetadataError::CategoryError(category_of(footer[security + 0x7C])->Err_0))
    } else {
        None
    }
}

/// What a footer holds whose security data has `security` bytes, beside a
/// header and the bytes of the input streams.
pub open spec fn fields_of(
    header: Seq<u8>,
    footer: Seq<u8>,
    input: Seq<u8>,
    security: int,
    version: u8,
    size: u32,
) -> CTGPMetadataView {
    CTGPMetadataView {
        security_data: footer.subrange(0, security),
        track_sha1: footer.subrange(security, security + 0x14),
        player_id: be64_at(footer, security + 0x14),
        exact_finish_time: exact_time(
            in_game_time_of(view_over(header, 0x04, 0x07)),
            correction_picoseconds(view_over(footer, security + 0x1C, security + 0x20)) as int,
        ),
        ctgp_version: if version >= 2 {
            Some(footer.subrange(security + 0x20, security + 0x24))
        } else {
            None
        },
        lap_split_dubious_intersections: if version >= 2 {
            Some(
                Seq::new(
                    MOST_LAPS as nat,
                    |lap: int|
                        bit_at(view_over(footer, security + 0x24, security + 0x26), lap + 6),
                ),
            )
        } else {
            None
        },
        exact_lap_times: exact_lap_times_of(
            header,
            stored_corrections_at(footer, security + 0x5C, header[0x10] as nat),
            header[0x10] as nat,
        ),
        rtc_race_end: be64_at(footer, security + 0x60),
        rtc_race_begins: be64_at(footer, security + 0x68),
        rtc_time_paused: be64_at(footer, security + 0x70),
        pause_frames: pause_frames_of(input, count_at(input, 0) as nat),
        my_stuff_enabled: bit_at(footer[security + 0x78] as u32, 3),
        my_stuff_used: bit_at(footer[security + 0x78] as u32, 2),
        usb_gamecube_enabled: bit_at(footer[security + 0x78] as u32, 1),
        final_lap_dubious_intersection: bit_at(footer[security + 0x78] as u32, 0),
        shroomstrat: shroomstrat_of(footer, security + 0x79, 3),
        cannoned: bit_at(footer[security + 0x7D] as u32, 7),
        went_oob: bit_at(footer[security + 0x7D] as u32, 6),
        has_slowdown: bit_at(footer[security + 0x7D] as u32, 5),
        has_rapidfire: bit_at(footer[security + 0x7D] as u32, 4),
        dubious_ghost: bit_at(footer[security + 0x7D] as u32, 3),
        has_mii_data_replaced: bit_at(footer[security + 0x7D] as u32, 2),
        has_name_replaced: bit_at(footer[security + 0x7D] as u32, 1),
        respawns: bit_at(footer[security + 0x7D] as u32, 0),
        category: category_of(footer[security + 0x7C])->Ok_0,
        metadata_version: version,
        metadata_size: size,
        lap_count: header[0x10],
    }
}

/// The first thing that is wrong with a file as one with a footer, if
/// anything is. The end of the file is looked at first, then the length of
/// the footer, the number of laps, the input data, and the fields of the
/// footer.
#[verifier::opaque]
pub open spec fn footer_fault(data: Seq<u8>) -> Option<CTGPMetadataError> {
    if !is_ctgp(data) {
        Some(CTGPMetadataError::NotCKGD)
    } else if footer_length(data) + HEADER_LENGTH > data.len() || footer_length(data) < place(
        data,
        0x7E,
    ) {
        Some(CTGPMetadataError::TryFromSliceError)
    } else if data[0x10] > MOST_LAPS {
        Some(CTGPMetadataError::LapCountInvalid)
    } else if input_payload(input_region(data)) is Err {
        Some(CTGPMetadataError::InputDataError(input_payload(input_region(data))->Err_0))
    } else if input_payload(input_region(data))->Ok_0.len() < 8 || input_payload(
        input_region(data),
    )->Ok_0.len() < 8 + 2 * count_at(input_payload(input_region(data))->Ok_0, 0) {
        Some(CTGPMetadataError::InputDataError(InputDataError::NotEnoughData))
    } else {
        fields_fault(footer_bytes(data), place(data, 0))
    }
}

/// What the footer of a file holds, where nothing is wrong with it.
#[verifier::opaque]
pub open spec fn footer_of(data: Seq<u8>) -> CTGPMetadataView {
    fields_of(
        data,
        footer_bytes(data),
        input_payload(input_region(data))->Ok_0,
        place(data, 0),
        footer_version(data),
        footer_length(data),
    )
}

/// All that the footer of CTGP holds.
pub struct CTGPMetadata {
    security_data: Vec<u8>,
    track_sha1: [u8; 0x14],
    player_id: u64,
    exact_finish_time: ExactFinishTime,
    ctgp_version: Option<[u8; 4]>,
    lap_split_dubious_intersections: Option<[bool; 10]>,
    exact_lap_times: [ExactFinishTime; 10],
    rtc_race_end: u64,
    rtc_race_begins: u64,
    rtc_time_paused: u64,
    pause_frames: Vec<u32>,
    my_stuff_enabled: bool,
    my_stuff_used: bool,
    usb_gamecube_enabled: bool,
    final_lap_dubious_intersection: bool,
    shroomstrat: [u8; 10],
    cannoned: bool,
    went_oob: bool,
    has_slowdown: bool,
    has_rapidfire: bool,
    dubious_ghost: bool,
    has_mii_data_replaced: bool,
    has_name_replaced: bool,
    respawns: bool,
    category: Category,
    metadata_version: u8,
    metadata_size: u32,
    lap_count: u8,
}

impl View for CTGPMetadata {
    type V = CTGPMetadataView;

    closed spec fn view(&self) -> CTGPMetadataView {
        CTGPMetadataView {
            security_data: self.security_data@,
            track_sha1: self.track_sha1@,
            player_id: self.player_id,
            exact_finish_time: self.exact_finish_time,
            ctgp_version: match self.ctgp_version {
                Some(version) => Some(version@),
                None => None,
            },
            lap_split_dubious_intersections: match self.lap_split_dubious_intersections {
                Some(laps) => Some(laps@),
                None => None,
            },
            exact_lap_times: self.exact_lap_times@,
            rtc_race_end: self.rtc_race_end,
            rtc_race_begins: self.rtc_race_begins,
            rtc_time_paused: self.rtc_time_paused,
            pause_frames: self.pause_frames@,
            my_stuff_enabled: self.my_stuff_enabled,
            my_stuff_used: self.my_stuff_used,
            usb_gamecube_enabled: self.usb_gamecube_enabled,
            final_lap_dubious_intersection: self.final_lap_dubious_intersection,
            shroomstrat: self.shroomstrat@,
            cannoned: self.cannoned,
            went_oob: self.went_oob,
            has_slowdown: self.has_slowdown,
            has_rapidfire: self.has_rapidfire,
            dubious_ghost: self.dubious_ghost,
            has_mii_data_replaced: self.has_mii_data_replaced,
            has_name_replaced: self.has_name_replaced,
            respawns: self.respawns,
            category: self.category,
            metadata_version: self.metadata_version,
            metadata_size: self.metadata_size,
            lap_count: self.lap_count,
        }
    }
}

/// Looks at the last 13 bytes of a file: whether they end a footer of CTGP,
/// and if so, the length that the footer declares, else 0.
pub fn decode_footer_length_and_tag(bytes: &[u8]) -> (r: (bool, u32))
    ensures
        r.0 == is_ctgp(bytes@),
        r.1 == if is_ctgp(bytes@) {
            footer_length(bytes@)
        } else {
            0
        },
{
    let len = bytes.len();
    if len < 13 {
        return (false, 0);
    }
    proof {
        let tag = bytes@.subrange(len - 8, len - 4);
        assert(tag[0] == bytes@[len - 8] && tag[1] == bytes@[len - 7] && tag[2] == bytes@[len - 6]
            && tag[3] == bytes@[len - 5]);
    }
    if bytes[len - 8] != 0x43 || bytes[len - 7] != 0x4B || bytes[len - 6] != 0x47 || bytes[len - 5]
        != 0x44 {
        return (false, 0);
    }
    assert(bytes@.subrange(len - 8, len - 4) =~= ckgd_magic());
    (true, ByteHandler::over(bytes, len - 12, len - 8).copy_dword())
}

fn read_be64(data: &[u8], at: usize) -> (r: u64)
    requires
        at + 8 <= data@.len(),
    ensures
        r == be64_at(data@, at as int),
{
    let len = data.len();
    let high = ByteHandler::over(data, at, at + 4).copy_dword();
    let low = ByteHandler::over(data, at + 4, at + 8).copy_dword();
    high as u64 * 0x1_0000_0000 + low as u64
}

fn wrapped(v: i128) -> (r: u64)
    requires
        -0x1_0000_0000_0000_0000_0000 < v < 0x1_0000_0000_0000_0000_0000,
    ensures
        r == v as int % 0x1_0000_0000_0000_0000,
{
    if v >= 0 {
        ((v as u128) % 0x1_0000_0000_0000_0000u128) as u64
    } else {
        let positive: u128 = (-v) as u128;
        let rest = positive % 0x1_0000_0000_0000_0000u128;
        proof {
            let q = positive as int / 0x1_0000_0000_0000_0000;
            vstd::arithmetic::div_mod::lemma_fundamental_div_mod(
                positive as int,
                0x1_0000_0000_0000_0000,
            );
            if rest == 0 {
                vstd::arithmetic::div_mod::lemma_fundamental_div_mod_converse(
                    v as int,
                    0x1_0000_0000_0000_0000,
                    -q,
                    0,
                );
            } else {
                vstd::arithmetic::div_mod::lemma_fundamental_div_mod_converse(
                    v as int,
                    0x1_0000_0000_0000_0000,
                    -q - 1,
                    0x1_0000_0000_0000_0000 - rest,
                );
            }
        }
        if rest == 0 {
            0
        } else {
            (0x1_0000_0000_0000_0000u128 - rest) as u64
        }
    }
}

fn exact_time_of(shown: InGameTime, correction: i128) -> (r: ExactFinishTime)
    requires
        -0x1_0000_0000_0000_0000_00 < correction < 0x1_0000_0000_0000_0000_00,
    ensures
        r == exact_time(shown, correction as int),
{
    let shown_picoseconds: i128 = shown.milliseconds() as i128 * 1_000_000_000;
    let sum: i128 = shown_picoseconds + correction;
    ExactFinishTime::new(shown.minutes(), shown.seconds(), wrapped(sum))
}

fn read_track_sha1(metadata: &[u8], at: usize) -> (r: [u8; 0x14])
    requires
        at + 0x14 <= metadata@.len(),
    ensures
        r@ == metadata@.subrange(at as int, at + 0x14),
{
    let len = metadata.len();
    let mut track_sha1 = [0u8;0x14];
    let mut index: usize = 0;
    while index < 0x14
        invariant
            index <= 0x14,
            at + 0x14 <= metadata@.len() <= usize::MAX,
            forall|i: int| 0 <= i < index ==> track_sha1@[i] == metadata@[at + i],
        decreases 0x14 - index,
    {
        track_sha1[index] = metadata[at + index];
        index += 1;
    }
    assert(track_sha1@ =~= metadata@.subrange(at as int, at + 0x14));
    track_sha1
}

fn read_ctgp_version(metadata: &[u8], at: usize) -> (r: [u8; 4])
    requires
        at + 4 <= metadata@.len(),
    ensures
        r@ == metadata@.subrange(at as int, at + 4),
{
    let len = metadata.len();
    let mut version = [0u8;4];
    let mut index: usize = 0;
    while index < 4
        invariant
            index <= 4,
            at + 4 <= metadata@.len() <= usize::MAX,
            forall|i: int| 0 <= i < index ==> version@[i] == metadata@[at + i],
        decreases 4 - index,
    {
        version[index] = metadata[at + index];
        index += 1;
    }
    assert(version@ =~= metadata@.subrange(at as int, at + 4));
    version
}

fn read_dubious_intersections(laps_handler: ByteHandler) -> (r: [bool; 10])
    ensures
        r@ == Seq::new(MOST_LAPS as nat, |lap: int| bit_at(laps_handler@, lap + 6)),
{
    let mut intersections = [false;10];
    let mut lap: u8 = 0;
    while lap < 10
        invariant
            lap <= 10,
            forall|i: int| 0 <= i < lap ==> intersections@[i] == bit_at(laps_handler@, i + 6),
        decreases 10 - lap,
    {
        intersections[lap as usize] = laps_handler.read_bool(lap + 6);
        lap += 1;
    }
    assert(intersections@ =~= Seq::new(
        MOST_LAPS as nat,
        |lap: int| bit_at(laps_handler@, lap + 6),
    ));
    intersections
}

fn read_exact_lap_times(header: &[u8], metadata: &[u8], first: usize, lap_count: u8) -> (r: [
    ExactFinishTime; 10
])
    requires
        header@.len() >= HEADER_LENGTH,
        lap_count <= MOST_LAPS,
        first >= 36,
        first + 4 <= metadata@.len(),
    ensures
        r@ == exact_lap_times_of(
            header@,
            stored_corrections_at(metadata@, first as int, lap_count as nat),
            lap_count as nat,
        ),
{
    let len = metadata.len();
    let ghost stored = stored_corrections_at(metadata@, first as int, lap_count as nat);
    let mut previous_subtractions: i128 = 0;
    let mut exact_lap_times = [ExactFinishTime::new(0, 0, 0);10];
    let mut subtraction_ps: i128 = 0;
    let mut index: u8 = 0;
    while index < lap_count
        invariant
            index <= lap_count <= MOST_LAPS,
            header@.len() >= HEADER_LENGTH,
            first >= 36,
            first + 4 <= metadata@.len() <= usize::MAX,
            stored == stored_corrections_at(metadata@, first as int, lap_count as nat),
            carry_after(stored, index as nat) == (LapCarry {
                previous: previous_subtractions as int,
                carry: subtraction_ps as int,
            }),
            subtraction_ps == 0 || subtraction_ps == PICOSECONDS_PER_MILLISECOND,
            -0x1_0000_0000_0000_0000 < previous_subtractions < 0x1_0000_0000_0000_0000,
            forall|lap: int|
                0 <= lap < index ==> exact_lap_times@[lap] == exact_time(
                    lap_time_of(header@, lap),
                    lap_correction(stored, lap),
                ),
            forall|lap: int|
                index <= lap < MOST_LAPS ==> exact_lap_times@[lap] == (ExactFinishTime {
                    minutes: 0,
                    seconds: 0,
                    picoseconds: 0,
                }),
        decreases lap_count - index,
    {
        // the corrections stand in the footer from the last lap to the first
        let at = first - 4 * (index as usize);
        let mut true_time_subtraction: i128 = correction_in_picoseconds(
            ByteHandler::over(metadata, at, at + 4).copy_dword(),
        ) as i128;
        assert(true_time_subtraction == stored[index as int]);

        let start = 0x11 + 3 * (index as usize);
        let lap_time = match InGameTime::from_byte_handler(
            ByteHandler::over(header, start, start + 3),
        ) {
            Ok(lap_time) => lap_time,
            Err(_) => InGameTime::new(0, 0, 0),
        };

        // the corrections add up from lap to lap, so that of the laps
        // before comes off
        true_time_subtraction -= previous_subtractions;
        if true_time_subtraction > PICOSECONDS_PER_MILLISECOND as i128 {
            true_time_subtraction -= subtraction_ps;
            subtraction_ps = if subtraction_ps == 0 {
                PICOSECONDS_PER_MILLISECOND as i128
            } else {
                0
            };
        }
        previous_subtractions += true_time_subtraction;
        exact_lap_times[index as usize] = exact_time_of(lap_time, true_time_subtraction);
        index += 1;
    }
    assert(exact_lap_times@ =~= exact_lap_times_of(header@, stored, lap_count as nat));
    exact_lap_times
}

fn read_pause_frames(input_data: &[u8], face_input_count: usize) -> (r: Vec<u32>)
    requires
        input_data@.len() >= 8,
        face_input_count == count_at(input_data@, 0),
        8 + 2 * face_input_count <= input_data@.len(),
    ensures
        r@ == pause_frames_of(input_data@, face_input_count as nat),
{
    let mut pause_frames: Vec<u32> = Vec::new();
    let mut record: usize = 0;
    let mut elapsed_frames: u32 = 1;
    while record < face_input_count
        invariant
            record <= face_input_count <= 0xFFFF,
            8 + 2 * face_input_count <= input_data@.len(),
            elapsed_frames == 1 + frames_written(input_data@, 8, record as nat),
            elapsed_frames <= 1 + 255 * record,
            pause_frames@ == pause_frames_of(input_data@, record as nat),
        decreases face_input_count - record,
    {
        let idx = 8 + 2 * record;
        proof {
            let input = record_at(input_data@, 8, record as int);
            assert(input[0] == input_data@[idx as int]);
            assert(input[1] == input_data@[idx + 1]);
        }
        if contains_ctgp_pause(input_data[idx]) {
            pause_frames.push(elapsed_frames);
        }
        elapsed_frames += input_data[idx + 1] as u32;
        record += 1;
    }
    pause_frames
}

fn read_shroomstrat(metadata: &[u8], at: usize) -> (r: Option<[u8; 10]>)
    requires
        at + 3 <= metadata@.len(),
    ensures
        r is None <==> metadata@[at as int] > MOST_LAPS || metadata@[at + 1] > MOST_LAPS
            || metadata@[at + 2] > MOST_LAPS,
        r is Some ==> r->Some_0@ == shroomstrat_of(metadata@, at as int, 3),
{
    let len = metadata.len();
    let mut shroomstrat: [u8; 10] = [0;10];
    let mut shroom: usize = 0;
    assert(shroomstrat@ =~= shroomstrat_of(metadata@, at as int, 0));
    while shroom < 3
        invariant
            shroom <= 3,
            at + 3 <= metadata@.len() <= usize::MAX,
            shroomstrat@ == shroomstrat_of(metadata@, at as int, shroom as nat),
            forall|lap: int| 0 <= lap < MOST_LAPS ==> shroomstrat@[lap] <= shroom,
            shroom > 0 ==> metadata@[at as int] <= MOST_LAPS,
            shroom > 1 ==> metadata@[at + 1] <= MOST_LAPS,
            shroom > 2 ==> metadata@[at + 2] <= MOST_LAPS,
        decreases 3 - shroom,
    {
        let lap = metadata[at + shroom];
        if lap as usize > MOST_LAPS {
            return None;
        }
        if lap != 0 {
            let used = shroomstrat[(lap - 1) as usize];
            shroomstrat[(lap - 1) as usize] = used + 1;
        }
        shroom += 1;
    }
    Some(shroomstrat)
}

impl CTGPMetadata {
    #[verifier::type_invariant]
    spec fn has_room_for_laps(&self) -> bool {
        self.lap_count <= MOST_LAPS
    }

    /// Reads the footer of CTGP out of a whole ghost file.
    pub fn new(data: &[u8]) -> (r: Result<Self, CTGPMetadataError>)
        ensures
            match r {
                Ok(footer) => footer_fault(data@) is None && footer@ == footer_of(data@),
                Err(e) => footer_fault(data@) == Some(e),
            },
    {
        proof {
            reveal(footer_fault);
            reveal(footer_of);
        }
        let (tagged, metadata_size) = decode_footer_length_and_tag(data);
        if !tagged {
            return Err(CTGPMetadataError::NotCKGD);
        }
        let metadata_version = data[data.len() - 0x0D];
        let security_data_size: usize = if metadata_version < 7 {
            0x44
        } else {
            0x54
        };
        if data.len() < HEADER_LENGTH || metadata_size as usize > data.len() - HEADER_LENGTH
            || (metadata_size as usize) < security_data_size + 0x7E {
            return Err(CTGPMetadataError::TryFromSliceError);
        }
        let lap_count = data[0x10];
        if lap_count as usize > MOST_LAPS {
            return Err(CTGPMetadataError::LapCountInvalid);
        }
        let metadata_start = data.len() - metadata_size as usize;
        let input_data = slice_subrange(data, HEADER_LENGTH, metadata_start);
        let metadata = slice_subrange(data, metadata_start, data.len());

        let input_data = match unpack_input(input_data) {
            Ok(input_data) => input_data,
            Err(e) => {
                return Err(CTGPMetadataError::InputDataError(e));
            },
        };
        if input_data.len() < 8 {
            return Err(CTGPMetadataError::InputDataError(InputDataError::NotEnoughData));
        }
        let face_input_count: usize = input_data[0] as usize * 0x100 + input_data[1] as usize;
        if input_data.len() < 8 + 2 * face_input_count {
            return Err(CTGPMetadataError::InputDataError(InputDataError::NotEnoughData));
        }
        Self::read_fields(
            data,
            metadata,
            input_data.as_slice(),
            security_data_size,
            metadata_version,
            metadata_size,
        )
    }

    /// Reads the fields of a footer whose security data has
    /// `security_data_size` bytes, beside the header and the bytes of the
    /// input streams.
    #[verifier::rlimit(40)]
    fn read_fields(
        header: &[u8],
        metadata: &[u8],
        input_data: &[u8],
        security_data_size: usize,
        metadata_version: u8,
        metadata_size: u32,
    ) -> (r: Result<Self, CTGPMetadataError>)
        requires
            header@.len() >= HEADER_LENGTH,
            header@[0x10] <= MOST_LAPS,
            security_data_size <= 0x54,
            security_data_size + 0x7E <= metadata@.len(),
            input_data@.len() >= 8,
            8 + 2 * count_at(input_data@, 0) <= input_data@.len(),
        ensures
            match r {
                Ok(footer) => fields_fault(metadata@, security_data_size as int) is None
                    && footer@ == fields_of(
                    header@,
                    metadata@,
                    input_data@,
                    security_data_size as int,
                    metadata_version,
                    metadata_size,
                ),
                Err(e) => fields_fault(metadata@, security_data_size as int) == Some(e),
            },
    {
        let lap_count = header[0x10];
        let mut current_offset: usize = 0;

        let security_data = slice_to_vec(slice_subrange(metadata, 0, security_data_size));
        current_offset += security_data_size;

        let track_sha1 = read_track_sha1(metadata, current_offset);
        current_offset += 0x14;

        let player_id = read_be64(metadata, current_offset);
        current_offset += 0x08;

        let finish_time = match InGameTime::from_byte_handler(
            ByteHandler::over(header, 0x04, 0x07),
        ) {
            Ok(finish_time) => finish_time,
            Err(_) => InGameTime::new(0, 0, 0),
        };
        let true_time_subtraction = correction_in_picoseconds(
            ByteHandler::over(metadata, current_offset, current_offset + 4).copy_dword(),
        );
        let exact_finish_time = exact_time_of(finish_time, true_time_subtraction as i128);
        current_offset += 0x04;

        let ctgp_version;
        let lap_split_dubious_intersections;

        if metadata_version >= 2 {
            ctgp_version = Some(read_ctgp_version(metadata, current_offset));
            current_offset += 0x04;

            let laps_handler = ByteHandler::over(metadata, current_offset, current_offset + 2);
            lap_split_dubious_intersections = Some(read_dubious_intersections(laps_handler));
            current_offset -= 0x04;
        } else {
            ctgp_version = None;
            lap_split_dubious_intersections = None;
        }
        current_offset += 0x3C;

        let exact_lap_times = read_exact_lap_times(header, metadata, current_offset, lap_count);
        current_offset += 0x04;

        let rtc_race_end = read_be64(metadata, current_offset);
        current_offset += 0x08;

        let rtc_race_begins = read_be64(metadata, current_offset);
        current_offset += 0x08;

        let rtc_time_paused = read_be64(metadata, current_offset);
        current_offset += 0x08;

        // the frames at which the race was paused
        let face_input_count: usize = input_data[0] as usize * 0x100 + input_data[1] as usize;
        let pause_frames = read_pause_frames(input_data, face_input_count);

        let bool_handler = ByteHandler::from(metadata[current_offset]);
        let my_stuff_enabled = bool_handler.read_bool(3);
        let my_stuff_used = bool_handler.read_bool(2);
        let usb_gamecube_enabled = bool_handler.read_bool(1);
        let final_lap_dubious_intersection = bool_handler.read_bool(0);
        current_offset += 0x01;

        let shroomstrat = match read_shroomstrat(metadata, current_offset) {
            Some(shroomstrat) => shroomstrat,
            None => {
                return Err(CTGPMetadataError::ShroomstratLapInvalid);
            },
        };
        current_offset += 0x03;

        let category = match Category::try_from(metadata[current_offset]) {
            Ok(category) => category,
            Err(e) => {
                return Err(CTGPMetadataError::CategoryError(e));
            },
        };
        current_offset += 0x01;
        let bool_handler = ByteHandler::from(metadata[current_offset]);
        let cannoned = bool_handler.read_bool(7);
        let went_oob = bool_handler.read_bool(6);
        let has_slowdown = bool_handler.read_bool(5);
        let has_rapidfire = bool_handler.read_bool(4);
        let dubious_ghost = bool_handler.read_bool(3);
        let has_mii_data_replaced = bool_handler.read_bool(2);
        let has_name_replaced = bool_handler.read_bool(1);
        let respawns = bool_handler.read_bool(0);

        Ok(
            Self {
                security_data,
                track_sha1,
                player_id,
                exact_finish_time,
                ctgp_version,
                lap_split_dubious_intersections,
                exact_lap_times,
                rtc_race_end,
                rtc_race_begins,
                rtc_time_paused,
                pause_frames,
                my_stuff_enabled,
                my_stuff_used,
                usb_gamecube_enabled,
                final_lap_dubious_intersection,
                shroomstrat,
                cannoned,
                went_oob,
                has_slowdown,
                has_rapidfire,
                dubious_ghost,
                has_mii_data_replaced,
                has_name_replaced,
                respawns,
                category,
                metadata_version,
                metadata_size,
                lap_count,
            },
        )
    }

    pub fn security_data(&self) -> (r: &[u8])
        ensures
            r@ == self@.security_data,
    {
        self.security_data.as_slice()
    }

    pub fn track_sha1(&self) -> (r: &[u8])
        ensures
            r@ == self@.track_sha1,
    {
        self.track_sha1.as_slice()
    }

    pub fn player_id(&self) -> (r: u64)
        ensures
            r == self@.player_id,
    {
        self.player_id
    }

    pub fn exact_finish_time(&self) -> (r: ExactFinishTime)
        ensures
            r == self@.exact_finish_time,
    {
        self.exact_finish_time
    }

    /// The four bytes of the version of CTGP, where the footer holds them.
    pub fn ctgp_version(&self) -> (r: Option<[u8; 4]>)
        ensures
            match r {
                Some(version) => self@.ctgp_version == Some(version@),
                None => self@.ctgp_version is None,
            },
    {
        self.ctgp_version
    }

    /// For each lap that was driven, whether the line was crossed
    /// doubtfully, where the footer tells.
    pub fn lap_split_dubious_intersections(&self) -> (r: Option<&[bool]>)
        ensures
            self@.lap_count <= MOST_LAPS,
            match r {
                Some(laps) => self@.lap_split_dubious_intersections is Some && laps@
                    == self@.lap_split_dubious_intersections->Some_0.take(self@.lap_count as int),
                None => self@.lap_split_dubious_intersections is None,
            },
    {
        proof {
            use_type_invariant(self);
        }
        match &self.lap_split_dubious_intersections {
            Some(intersections) => Some(
                slice_subrange(intersections.as_slice(), 0, self.lap_count as usize),
            ),
            None => None,
        }
    }

    /// The exact times of the laps that were driven.
    pub fn exact_lap_times(&self) -> (r: &[ExactFinishTime])
        ensures
            self@.lap_count <= MOST_LAPS,
            r@ == self@.exact_lap_times.take(self@.lap_count as int),
    {
        proof {
            use_type_invariant(self);
        }
        slice_subrange(self.exact_lap_times.as_slice(), 0, self.lap_count as usize)
    }

    /// The clock of the console at the end of the race: ticks of 60.75 MHz
    /// since the start of the year 2000.
    pub fn rtc_race_end(&self) -> (r: u64)
        ensures
            r == self@.rtc_race_end,
    {
        self.rtc_race_end
    }

    /// The clock of the console at the start of the race: ticks of
    /// 60.75 MHz since the start of the year 2000.
    pub fn rtc_race_begins(&self) -> (r: u64)
        ensures
            r == self@.rtc_race_begins,
    {
        self.rtc_race_begins
    }

    /// The time for which the race was paused, in ticks of 60.75 MHz.
    pub fn rtc_time_paused(&self) -> (r: u64)
        ensures
            r == self@.rtc_time_paused,
    {
        self.rtc_time_paused
    }

    pub fn pause_frames(&self) -> (r: &Vec<u32>)
        ensures
            r@ == self@.pause_frames,
    {
        &self.pause_frames
    }

    pub fn my_stuff_enabled(&self) -> (r: bool)
        ensures
            r == self@.my_stuff_enabled,
    {
        self.my_stuff_enabled
    }

    pub fn my_stuff_used(&self) -> (r: bool)
        ensures
            r == self@.my_stuff_used,
    {
        self.my_stuff_used
    }

    pub fn usb_gamecube_enabled(&self) -> (r: bool)
        ensures
            r == self@.usb_gamecube_enabled,
    {
        self.usb_gamecube_enabled
    }

    pub fn final_lap_dubious_intersection(&self) -> (r: bool)
        ensures
            r == self@.final_lap_dubious_intersection,
    {
        self.final_lap_dubious_intersection
    }

    /// The number of mushrooms used in each lap that was driven.
    pub fn shroomstrat(&self) -> (r: &[u8])
        ensures
            self@.lap_count <= MOST_LAPS,
            r@ == self@.shroomstrat.take(self@.lap_count as int),
    {
        proof {
            use_type_invariant(self);
        }
        slice_subrange(self.shroomstrat.as_slice(), 0, self.lap_count as usize)
    }

    pub fn cannoned(&self) -> (r: bool)
        ensures
            r == self@.cannoned,
    {
        self.cannoned
    }

    pub fn went_oob(&self) -> (r: bool)
        ensures
            r == self@.went_oob,
    {
        self.went_oob
    }

    pub fn has_slowdown(&self) -> (r: bool)
        ensures
            r == self@.has_slowdown,
    {
        self.has_slowdown
    }

    pub fn has_rapidfire(&self) -> (r: bool)
        ensures
            r == self@.has_rapidfire,
    {
        self.has_rapidfire
    }

    pub fn dubious_ghost(&self) -> (r: bool)
        ensures
            r == self@.dubious_ghost,
    {
        self.dubious_ghost
    }

    pub fn has_mii_data_replaced(&self) -> (r: bool)
        ensures
            r == self@.has_mii_data_replaced,
    {
        self.has_mii_data_replaced
    }

    pub fn has_name_replaced(&self) -> (r: bool)
        ensures
            r == self@.has_name_replaced,
    {
        self.has_name_replaced
    }

    pub fn respawns(&self) -> (r: bool)
        ensures
            r == self@.respawns,
    {
        self.respawns
    }

    pub fn category(&self) -> (r: Category)
        ensures
            r == self@.category,
    {
        self.category
    }

    pub fn metadata_version(&self) -> (r: u8)
        ensures
            r == self@.metadata_version,
    {
        self.metadata_version
    }

    pub fn metadata_size(&self) -> (r: u32)
        ensures
            r == self@.metadata_size,
    {
        self.metadata_size
    }
}

/// Whether a button byte of the face button stream bears the pause mask of
/// CTGP.
pub fn contains_ctgp_pause(buttons: u8) -> (r: bool)
    ensures
        r == (buttons & 0x40 != 0),
{
    buttons & 0x40 != 0
}

} // verus!
