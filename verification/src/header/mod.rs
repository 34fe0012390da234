//! The header of a ghost file: its first 0x88 bytes.
//!
//! | bytes       | field                                              |
//! |-------------|----------------------------------------------------|
//! | 0x00 - 0x03 | the magic bytes "RKGD"                             |
//! | 0x04 - 0x06 | the finish time                                    |
//! | 0x07        | the slot of the track, in its upper six bits      |
//! | 0x08 - 0x09 | the vehicle and the character, six bits each       |
//! | 0x09 - 0x0B | the date, from bit 4 of byte 0x09 on               |
//! | 0x0B        | the controller, in its lower half                  |
//! | 0x0C - 0x0D | compression, the kind of ghost, automatic drift    |
//! | 0x0E - 0x0F | the length of the input data when unpacked         |
//! | 0x10        | the number of laps                                 |
//! | 0x11 - 0x2E | the time of each lap, three bytes each             |
//! | 0x34 - 0x37 | country, subregion and location                    |
//! | 0x3C - 0x85 | the Mii of the player                              |
//! | 0x86 - 0x87 | the CRC16 of the Mii                               |

use vstd::prelude::*;
use vstd::slice::slice_subrange;
use crate::byte_handler::bit_at;
use crate::byte_handler::field_at;
use crate::byte_handler::lemma_be_value_unfold;
use crate::byte_handler::lemma_bytes_read_back;
use crate::byte_handler::lemma_word_of_bytes;
use crate::byte_handler::view_over;
use crate::byte_handler::ByteHandler;
use crate::header::combo::character_of;
use crate::header::combo::combo_fault;
use crate::header::combo::vehicle_of;
use crate::header::combo::Character;
use crate::header::combo::Combo;
use crate::header::combo::ComboError;
use crate::header::combo::Vehicle;
use crate::header::controller::controller_of;
use crate::header::controller::Controller;
use crate::header::controller::ControllerError;
use crate::header::date::date_fault;
use crate::header::date::day_field;
use crate::header::date::month_field;
use crate::header::date::year_field;
use crate::header::date::Date;
use crate::header::date::DateError;
use crate::header::ghost_type::ghost_type_of;
use crate::header::ghost_type::GhostType;
use crate::header::ghost_type::GhostTypeError;
use crate::header::in_game_time::in_game_time_of;
use crate::header::in_game_time::InGameTime;
use crate::header::in_game_time::InGameTimeError;
use crate::header::mii::mii_fault;
use crate::header::mii::mii_of;
use crate::header::mii::Mii;
use crate::header::mii::MiiError;
use crate::header::mii::MiiView;
use crate::header::slot_id::slot_id_of;
use crate::header::slot_id::SlotId;
use crate::header::slot_id::SlotIdError;

pub mod combo;
pub mod controller;
pub mod date;
pub mod ghost_type;
pub mod in_game_time;
pub mod location;
pub mod mii;
pub mod slot_id;

verus! {

#[derive(Debug)]
pub enum HeaderError {
    NotRKGD,
    NotCorrectSize,
    InGameTimeError(InGameTimeError),
    SlotIdError(SlotIdError),
    ComboError(ComboError),
    DateError(DateError),
    ControllerError(ControllerError),
    GhostTypeError(GhostTypeError),
    /// The header counts more laps than it has room for.
    LapCountInvalid,
    MiiError(MiiError),
}

/// The number of bytes of a header.
pub const HEADER_LENGTH: usize = 0x88;

/// The most laps that a header has room for.
pub const MOST_LAPS: usize = 10;

/// The four bytes that open a ghost file: "RKGD".
pub open spec fn rkgd_magic() -> Seq<u8> {
    seq![0x52u8, 0x4Bu8, 0x47u8, 0x44u8]
}

/// The CRC16 after one more bit: the register moves left by one bit, and
/// the polynomial 0x1021 is taken off where a set bit leaves it.
pub open spec fn crc16_shifted(crc: u16) -> u16 {
    if crc & 0x8000 != 0 {
        (crc << 1) ^ 0x1021
    } else {
        crc << 1
    }
}

/// The CRC16 after one more byte.
pub open spec fn crc16_with(crc: u16, byte: u8) -> u16 {
    let start = crc ^ ((byte as u16) << 8);
    crc16_shifted(
        crc16_shifted(
            crc16_shifted(
                crc16_shifted(crc16_shifted(crc16_shifted(crc16_shifted(crc16_shifted(start))))),
            ),
        ),
    )
}

/// The CRC16 of `bytes`, in the variant XMODEM: the polynomial is 0x1021,
/// the register starts at zero, and nothing is mirrored.
pub open spec fn crc16_of(bytes: Seq<u8>) -> u16
    decreases bytes.len(),
{
    if bytes.len() == 0 {
        0
    } else {
        crc16_with(crc16_of(bytes.drop_last()), bytes.last())
    }
}

/// The time of the lap of number `lap`, counted from 0.
pub open spec fn lap_time_of(data: Seq<u8>, lap: int) -> InGameTime {
    in_game_time_of(view_over(data, 0x11 + 3 * lap, 0x14 + 3 * lap))
}

/// What a header holds.
pub struct HeaderView {
    pub finish_time: InGameTime,
    pub slot_id: SlotId,
    pub vehicle: Vehicle,
    pub character: Character,
    pub year: int,
    pub month: int,
    pub day: int,
    pub controller: Controller,
    pub is_compressed: bool,
    pub ghost_type: GhostType,
    pub is_automatic_drift: bool,
    pub decompressed_input_data_length: u16,
    pub lap_count: u8,
    /// The times of ten laps: those of the laps that were driven, then zero
    /// times.
    pub lap_split_times: Seq<InGameTime>,
    pub country: u8,
    pub subregion: u8,
    pub location_code: u16,
    pub mii_bytes: Seq<u8>,
    pub mii: MiiView,
    pub mii_crc16: u16,
}

/// The first thing that is wrong with the bytes of a header, if anything
/// is. The length is looked at first, then the magic bytes, then the fields
/// in their order in the header.
#[verifier::opaque]
pub open spec fn header_fault(data: Seq<u8>) -> Option<HeaderError> {
    if data.len() != HEADER_LENGTH {
        Some(HeaderError::NotCorrectSize)
    } else if data.subrange(0, 4) != rkgd_magic() {
        Some(HeaderError::NotRKGD)
    } else if slot_id_of(field_at(data[0x07] as u32, 2, 6) as u8) is Err {
        Some(HeaderError::SlotIdError(slot_id_of(field_at(data[0x07] as u32, 2, 6) as u8)->Err_0))
    } else if combo_fault(
        field_at(view_over(data, 0x08, 0x0A), 10, 6) as u8,
        field_at(view_over(data, 0x08, 0x0A), 4, 6) as u8,
    ) is Some {
        Some(
            HeaderError::ComboError(
                combo_fault(
                    field_at(view_over(data, 0x08, 0x0A), 10, 6) as u8,
                    field_at(view_over(data, 0x08, 0x0A), 4, 6) as u8,
                )->Some_0,
            ),
        )
    } else if date_fault(
        year_field(view_over(data, 0x09, 0x0C)),
        month_field(view_over(data, 0x09, 0x0C)),
        day_field(view_over(data, 0x09, 0x0C)),
    ) is Some {
        Some(
            HeaderError::DateError(
                date_fault(
                    year_field(view_over(data, 0x09, 0x0C)),
                    month_field(view_over(data, 0x09, 0x0C)),
                    day_field(view_over(data, 0x09, 0x0C)),
                )->Some_0,
            ),
        )
    } else if controller_of(field_at(data[0x0B] as u32, 0, 4) as u8) is Err {
        Some(
            HeaderError::ControllerError(
                controller_of(field_at(data[0x0B] as u32, 0, 4) as u8)->Err_0,
            ),
        )
    } else if ghost_type_of(field_at(view_over(data, 0x0C, 0x0E), 2, 7) as u8) is Err {
        Some(
            HeaderError::GhostTypeError(
                ghost_type_of(field_at(view_over(data, 0x0C, 0x0E), 2, 7) as u8)->Err_0,
            ),
        )
    } else if data[0x10] > MOST_LAPS {
        Some(HeaderError::LapCountInvalid)
    } else if mii_fault(data.subrange(0x3C, 0x86)) is Some {
        Some(HeaderError::MiiError(mii_fault(data.subrange(0x3C, 0x86))->Some_0))
    } else {
        None
    }
}

/// What the bytes of a header hold, where nothing is wrong with them.
#[verifier::opaque]
pub open spec fn header_of(data: Seq<u8>) -> HeaderView {
    HeaderView {
        finish_time: in_game_time_of(view_over(data, 0x04, 0x07)),
        slot_id: slot_id_of(field_at(data[0x07] as u32, 2, 6) as u8)->Ok_0,
        vehicle: vehicle_of(field_at(view_over(data, 0x08, 0x0A), 10, 6) as u8)->Ok_0,
        character: character_of(field_at(view_over(data, 0x08, 0x0A), 4, 6) as u8)->Ok_0,
        year: year_field(view_over(data, 0x09, 0x0C)),
        month: month_field(view_over(data, 0x09, 0x0C)),
        day: day_field(view_over(data, 0x09, 0x0C)),
        controller: controller_of(field_at(data[0x0B] as u32, 0, 4) as u8)->Ok_0,
        is_compressed: bit_at(data[0x0C] as u32, 3),
        ghost_type: ghost_type_of(field_at(view_over(data, 0x0C, 0x0E), 2, 7) as u8)->Ok_0,
        is_automatic_drift: bit_at(data[0x0D] as u32, 1),
        decompressed_input_data_length: (data[0x0E] * 0x100 + data[0x0F]) as u16,
        lap_count: data[0x10],
        lap_split_times: Seq::new(
            MOST_LAPS as nat,
            |lap: int|
                if lap < data[0x10] {
                    lap_time_of(data, lap)
                } else {
                    InGameTime { minutes: 0, seconds: 0, milliseconds: 0 }
                },
        ),
        country: data[0x34],
        subregion: data[0x35],
        location_code: (data[0x36] * 0x100 + data[0x37]) as u16,
        mii_bytes: data.subrange(0x3C, 0x86),
        mii: mii_of(data.subrange(0x3C, 0x86)),
        mii_crc16: (data[0x86] * 0x100 + data[0x87]) as u16,
    }
}

/// All that the header of a ghost file holds.
pub struct Header {
    finish_time: InGameTime,
    slot_id: SlotId,
    combo: Combo,
    date_set: Date,
    controller: Controller,
    is_compressed: bool,
    ghost_type: GhostType,
    is_automatic_drift: bool,
    decompressed_input_data_length: u16,
    lap_count: u8,
    lap_split_times: [InGameTime; 10],
    country: u8,
    subregion: u8,
    location_code: u16,
    mii_bytes: [u8; 0x4A],
    mii: Mii,
    mii_crc16: u16,
}

impl View for Header {
    type V = HeaderView;

    closed spec fn view(&self) -> HeaderView {
        HeaderView {
            finish_time: self.finish_time,
            slot_id: self.slot_id,
            vehicle: self.combo.spec_vehicle(),
            character: self.combo.spec_character(),
            year: self.date_set.spec_year(),
            month: self.date_set.spec_month(),
            day: self.date_set.spec_day(),
            controller: self.controller,
            is_compressed: self.is_compressed,
            ghost_type: self.ghost_type,
            is_automatic_drift: self.is_automatic_drift,
            decompressed_input_data_length: self.decompressed_input_data_length,
            lap_count: self.lap_count,
            lap_split_times: self.lap_split_times@,
            country: self.country,
            subregion: self.subregion,
            location_code: self.location_code,
            mii_bytes: self.mii_bytes@,
            mii: self.mii@,
            mii_crc16: self.mii_crc16,
        }
    }
}

impl Header {
    #[verifier::type_invariant]
    spec fn has_room_for_laps(&self) -> bool {
        self.lap_count <= MOST_LAPS
    }

    /// Reads a header out of its 0x88 bytes.
    pub fn new(header_data: &[u8]) -> (r: Result<Self, HeaderError>)
        ensures
            match r {
                Ok(header) => header_fault(header_data@) is None && header@ == header_of(
                    header_data@,
                ),
                Err(e) => header_fault(header_data@) == Some(e),
            },
    {
        proof {
            reveal(header_fault);
            reveal(header_of);
        }
        if header_data.len() != HEADER_LENGTH {
            return Err(HeaderError::NotCorrectSize);
        }
        proof {
            let tag = header_data@.subrange(0, 4);
            assert(tag[0] == header_data@[0] && tag[1] == header_data@[1] && tag[2]
                == header_data@[2] && tag[3] == header_data@[3]);
        }
        if header_data[0] != 0x52 || header_data[1] != 0x4B || header_data[2] != 0x47
            || header_data[3] != 0x44 {
            return Err(HeaderError::NotRKGD);
        }
        assert(header_data@.subrange(0, 4) =~= rkgd_magic());

        let finish_time = match InGameTime::from_byte_handler(
            ByteHandler::over(header_data, 4, 7),
        ) {
            Ok(finish_time) => finish_time,
            Err(e) => {
                return Err(HeaderError::InGameTimeError(e));
            },
        };
        let slot_id = match SlotId::from_byte_handler(ByteHandler::from(header_data[7])) {
            Ok(slot_id) => slot_id,
            Err(e) => {
                return Err(HeaderError::SlotIdError(e));
            },
        };
        let combo = match Combo::from_byte_handler(ByteHandler::over(header_data, 0x08, 0x0A)) {
            Ok(combo) => combo,
            Err(e) => {
                return Err(HeaderError::ComboError(e));
            },
        };
        let date_set = match Date::from_byte_handler(ByteHandler::over(header_data, 0x09, 0x0C)) {
            Ok(date_set) => date_set,
            Err(e) => {
                return Err(HeaderError::DateError(e));
            },
        };
        let controller = match Controller::from_byte_handler(ByteHandler::from(header_data[0x0B])) {
            Ok(controller) => controller,
            Err(e) => {
                return Err(HeaderError::ControllerError(e));
            },
        };
        let is_compressed = ByteHandler::from(header_data[0x0C]).read_bool(3);
        let ghost_type = match GhostType::from_byte_handler(
            ByteHandler::over(header_data, 0x0C, 0x0E),
        ) {
            Ok(ghost_type) => ghost_type,
            Err(e) => {
                return Err(HeaderError::GhostTypeError(e));
            },
        };
        let is_automatic_drift = ByteHandler::from(header_data[0x0D]).read_bool(1);
        proof {
            lemma_be_value_unfold(header_data@.subrange(0x0E, 0x10));
        }
        let decompressed_input_data_length = ByteHandler::over(header_data, 0x0E, 0x10).copy_word(
            1,
        );

        let lap_count = header_data[0x10];
        if lap_count as usize > MOST_LAPS {
            return Err(HeaderError::LapCountInvalid);
        }
        let mut lap_split_times: [InGameTime; 10] = [InGameTime::new(0, 0, 0);10];
        let mut index: u8 = 0;
        while index < lap_count
            invariant
                index <= lap_count <= MOST_LAPS,
                header_data@.len() == HEADER_LENGTH,
                forall|lap: int|
                    0 <= lap < index ==> lap_split_times@[lap] == lap_time_of(header_data@, lap),
                forall|lap: int|
                    index <= lap < MOST_LAPS ==> lap_split_times@[lap] == (InGameTime {
                        minutes: 0,
                        seconds: 0,
                        milliseconds: 0,
                    }),
            decreases lap_count - index,
        {
            let start = 0x11 + (index as usize) * 3;
            let lap_time = match InGameTime::from_byte_handler(
                ByteHandler::over(header_data, start, start + 3),
            ) {
                Ok(lap_time) => lap_time,
                Err(e) => {
                    return Err(HeaderError::InGameTimeError(e));
                },
            };
            lap_split_times[index as usize] = lap_time;
            index += 1;
        }

        let codes = ByteHandler::over(header_data, 0x34, 0x38);
        proof {
            let field = header_data@.subrange(0x34, 0x38);
            lemma_bytes_read_back(field, 0);
            lemma_bytes_read_back(field, 1);
            lemma_bytes_read_back(field, 2);
            lemma_bytes_read_back(field, 3);
            lemma_word_of_bytes(codes@, 1);
        }
        let country = codes.copy_byte(0);
        let subregion = codes.copy_byte(1);
        let location_code = codes.copy_word(1);

        let mut mii_bytes = [0_u8;0x4A];
        let mut index: usize = 0;
        while index < 0x4A
            invariant
                index <= 0x4A,
                header_data@.len() == HEADER_LENGTH,
                forall|i: int| 0 <= i < index ==> mii_bytes@[i] == header_data@[0x3C + i],
            decreases 0x4A - index,
        {
            mii_bytes[index] = header_data[0x3C + index];
            index += 1;
        }
        assert(mii_bytes@ =~= header_data@.subrange(0x3C, 0x86));
        let mii = match Mii::new(mii_bytes.as_slice()) {
            Ok(mii) => mii,
            Err(e) => {
                return Err(HeaderError::MiiError(e));
            },
        };

        proof {
            lemma_be_value_unfold(header_data@.subrange(0x86, 0x88));
        }
        let mii_crc16 = ByteHandler::over(header_data, 0x86, 0x88).copy_word(1);

        let header = Self {
            finish_time,
            slot_id,
            combo,
            date_set,
            controller,
            is_compressed,
            ghost_type,
            is_automatic_drift,
            decompressed_input_data_length,
            lap_count,
            lap_split_times,
            country,
            subregion,
            location_code,
            mii_bytes,
            mii,
            mii_crc16,
        };
        proof {
            assert(header@.lap_split_times =~= header_of(header_data@).lap_split_times);
        }
        Ok(header)
    }

    /// Whether the CRC16 of the Mii is the one that the header holds: the
    /// Mii was not changed behind the game's back.
    pub fn verify_mii_crc16(&self) -> (r: bool)
        ensures
            r == (crc16_of(self@.mii_bytes) == self@.mii_crc16),
    {
        crc16(self.mii_bytes.as_slice()) == self.mii_crc16()
    }

    /// Sets the CRC16 that the header holds to the one of the Mii.
    pub fn fix_mii_crc16(&mut self)
        ensures
            final(self)@ == (HeaderView {
                mii_crc16: crc16_of(old(self)@.mii_bytes),
                ..old(self)@
            }),
    {
        proof {
            use_type_invariant(&*self);
        }
        self.mii_crc16 = crc16(self.mii_bytes.as_slice());
    }

    pub fn finish_time(&self) -> (r: &InGameTime)
        ensures
            *r == self@.finish_time,
    {
        &self.finish_time
    }

    pub fn set_finish_time(&mut self, finish_time: InGameTime)
        ensures
            final(self)@ == (HeaderView { finish_time, ..old(self)@ }),
    {
        proof {
            use_type_invariant(&*self);
        }
        self.finish_time = finish_time;
    }

    pub fn slot_id(&self) -> (r: SlotId)
        ensures
            r == self@.slot_id,
    {
        self.slot_id
    }

    pub fn set_slot_id(&mut self, slot_id: SlotId)
        ensures
            final(self)@ == (HeaderView { slot_id, ..old(self)@ }),
    {
        proof {
            use_type_invariant(&*self);
        }
        self.slot_id = slot_id;
    }

    pub fn combo(&self) -> (r: &Combo)
        ensures
            r.spec_vehicle() == self@.vehicle,
            r.spec_character() == self@.character,
    {
        &self.combo
    }

    pub fn set_combo(&mut self, combo: Combo)
        ensures
            final(self)@ == (HeaderView {
                vehicle: combo.spec_vehicle(),
                character: combo.spec_character(),
                ..old(self)@
            }),
    {
        proof {
            use_type_invariant(&*self);
        }
        self.combo = combo;
    }

    pub fn date_set(&self) -> (r: &Date)
        ensures
            r.spec_year() == self@.year,
            r.spec_month() == self@.month,
            r.spec_day() == self@.day,
    {
        &self.date_set
    }

    pub fn set_date_set(&mut self, date_set: Date)
        ensures
            final(self)@ == (HeaderView {
                year: date_set.spec_year(),
                month: date_set.spec_month(),
                day: date_set.spec_day(),
                ..old(self)@
            }),
    {
        proof {
            use_type_invariant(&*self);
        }
        self.date_set = date_set;
    }

    pub fn controller(&self) -> (r: Controller)
        ensures
            r == self@.controller,
    {
        self.controller
    }

    pub fn set_controller(&mut self, controller: Controller)
        ensures
            final(self)@ == (HeaderView { controller, ..old(self)@ }),
    {
        proof {
            use_type_invariant(&*self);
        }
        self.controller = controller;
    }

    pub fn is_compressed(&self) -> (r: bool)
        ensures
            r == self@.is_compressed,
    {
        self.is_compressed
    }

    pub fn ghost_type(&self) -> (r: GhostType)
        ensures
            r == self@.ghost_type,
    {
        self.ghost_type
    }

    pub fn set_ghost_type(&mut self, ghost_type: GhostType)
        ensures
            final(self)@ == (HeaderView { ghost_type, ..old(self)@ }),
    {
        proof {
            use_type_invariant(&*self);
        }
        self.ghost_type = ghost_type;
    }

    pub fn is_automatic_drift(&self) -> (r: bool)
        ensures
            r == self@.is_automatic_drift,
    {
        self.is_automatic_drift
    }

    pub fn decompressed_input_data_length(&self) -> (r: u16)
        ensures
            r == self@.decompressed_input_data_length,
    {
        self.decompressed_input_data_length
    }

    pub fn lap_count(&self) -> (r: u8)
        ensures
            r == self@.lap_count,
            r <= MOST_LAPS,
    {
        proof {
            use_type_invariant(self);
        }
        self.lap_count
    }

    /// The times of the laps that were driven.
    pub fn lap_split_times(&self) -> (r: &[InGameTime])
        ensures
            self@.lap_count <= MOST_LAPS,
            r@ == self@.lap_split_times.take(self@.lap_count as int),
    {
        proof {
            use_type_invariant(self);
        }
        slice_subrange(self.lap_split_times.as_slice(), 0, self.lap_count as usize)
    }

    pub fn set_lap_split_times(&mut self, lap_split_times: [InGameTime; 10])
        ensures
            final(self)@ == (HeaderView { lap_split_times: lap_split_times@, ..old(self)@ }),
    {
        proof {
            use_type_invariant(&*self);
        }
        self.lap_split_times = lap_split_times;
    }

    /// The code of the country of the player, 0xFF where none is set.
    pub fn country(&self) -> (r: u8)
        ensures
            r == self@.country,
    {
        self.country
    }

    pub fn subregion(&self) -> (r: u8)
        ensures
            r == self@.subregion,
    {
        self.subregion
    }

    pub fn location_code(&self) -> (r: u16)
        ensures
            r == self@.location_code,
    {
        self.location_code
    }

    pub fn mii(&self) -> (r: &Mii)
        ensures
            r@ == self@.mii,
    {
        &self.mii
    }

    pub fn mii_crc16(&self) -> (r: u16)
        ensures
            r == self@.mii_crc16,
    {
        self.mii_crc16
    }
}

/// The CRC16 of `value`, in the variant XMODEM.
pub fn crc16(value: &[u8]) -> (r: u16)
    ensures
        r == crc16_of(value@),
{
    let mut crc: u16 = 0x0000;
    let polynomial: u16 = 0x1021;

    let mut i: usize = 0;
    while i < value.len()
        invariant
            i <= value@.len(),
            polynomial == 0x1021,
            crc == crc16_of(value@.take(i as int)),
        decreases value@.len() - i,
    {
        let byte = value[i];
        let ghost before = crc;
        // the byte goes into the upper half of the register
        crc = crc ^ ((byte as u16) << 8);
        let mut bit: u8 = 0;
        let ghost start = crc;
        while bit < 8
            invariant
                bit <= 8,
                polynomial == 0x1021,
                start == before ^ ((byte as u16) << 8),
                bit == 0 ==> crc == start,
                bit == 1 ==> crc == crc16_shifted(start),
                bit == 2 ==> crc == crc16_shifted(crc16_shifted(start)),
                bit == 3 ==> crc == crc16_shifted(crc16_shifted(crc16_shifted(start))),
                bit == 4 ==> crc == crc16_shifted(
                    crc16_shifted(crc16_shifted(crc16_shifted(start))),
                ),
                bit == 5 ==> crc == crc16_shifted(
                    crc16_shifted(crc16_shifted(crc16_shifted(crc16_shifted(start)))),
                ),
                bit == 6 ==> crc == crc16_shifted(
                    crc16_shifted(
                        crc16_shifted(crc16_shifted(crc16_shifted(crc16_shifted(start)))),
                    ),
                ),
                bit == 7 ==> crc == crc16_shifted(
                    crc16_shifted(
                        crc16_shifted(
                            crc16_shifted(crc16_shifted(crc16_shifted(crc16_shifted(start)))),
                        ),
                    ),
                ),
                bit == 8 ==> crc == crc16_with(before, byte),
            decreases 8 - bit,
        {
            if crc & 0x8000 != 0 {
                crc = (crc << 1) ^ polynomial;
            } else {
                crc = crc << 1;
            }
            bit += 1;
        }
        i += 1;
        proof {
            assert(value@.take(i as int).drop_last() =~= value@.take(i - 1));
        }
    }
    proof {
        assert(value@.take(i as int) =~= value@);
    }
    crc
}

} // verus!
