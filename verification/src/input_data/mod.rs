//! The controller input region of a ghost file.
//!
//! The region holds three streams of records of two bytes each: the face
//! buttons, the analog stick and the directional pad. It opens with the
//! number of records of each stream, three big-endian numbers of two bytes,
//! and two bytes of padding. The whole of it may be packed as Yaz1 data; it
//! then stands behind four bytes of its own and the Yaz1 magic bytes.

use vstd::prelude::*;
use vstd::slice::slice_subrange;
use vstd::slice::slice_to_vec;
use crate::input_data::dpad_input::dpad_button_of;
use crate::input_data::dpad_input::dpad_frames;
use crate::input_data::dpad_input::DPadButton;
use crate::input_data::dpad_input::DPadButtonError;
use crate::input_data::dpad_input::DPadInput;
use crate::input_data::dpad_input::DPadInputError;
use crate::input_data::face_input::face_run;
use crate::input_data::face_input::legal_face_byte;
use crate::input_data::face_input::FaceButtonError;
use crate::input_data::face_input::FaceButton;
use crate::input_data::face_input::FaceInput;
use crate::input_data::face_input::FaceInputError;
use crate::input_data::input::Input;
use crate::input_data::run::lemma_merge_runs;
use crate::input_data::run::merge_runs;
use crate::input_data::run::no_equal_neighbours;
use crate::input_data::run::total_frames;
use crate::input_data::run::Run;
use crate::input_data::stick_input::stick_axes_valid;
use crate::input_data::stick_input::stick_run;
use crate::input_data::stick_input::StickInput;
use crate::input_data::stick_input::StickInputError;
use crate::input_data::timeline::merge_timeline;
use crate::input_data::timeline::next_input;
use crate::input_data::timeline::runs_ahead_of;
use crate::input_data::timeline::timeline_at;
use crate::input_data::timeline::TimelinePlace;
use crate::input_data::timeline::runs_of;
use crate::input_data::timeline::timeline;
use crate::input_data::yaz1::yaz1_decompress;
use crate::input_data::yaz1::yaz1_magic;
use crate::input_data::yaz1::yaz1_output;

pub mod dpad_input;
pub mod face_input;
pub mod frames;
pub mod input;
pub mod run;
pub mod stick_input;
pub mod timeline;
pub mod yaz1;

verus! {

#[derive(Clone, Copy, Debug, PartialEq, Eq, Structural)]
pub enum InputDataError {
    FaceInputError(FaceInputError),
    DPadInputError(DPadInputError),
    StickInputError(StickInputError),
    /// The region ends before the last of the records that it counts.
    NotEnoughData,
    /// The region is packed, and what is packed is broken.
    DecompressionFailed,
}

/// Whether the region is packed: it has the Yaz1 magic bytes at its fifth
/// byte.
pub open spec fn is_packed(region: Seq<u8>) -> bool {
    region.len() >= 8 && region.subrange(4, 8) == yaz1_magic()
}

/// The bytes of the streams: the region itself, or what it unpacks to.
pub open spec fn input_payload(region: Seq<u8>) -> Result<Seq<u8>, InputDataError> {
    if region.len() < 8 {
        Err(InputDataError::NotEnoughData)
    } else if is_packed(region) {
        match yaz1_output(region.subrange(4, region.len() as int)) {
            Some(data) => Ok(data),
            None => Err(InputDataError::DecompressionFailed),
        }
    } else {
        Ok(region)
    }
}

/// The big-endian number in the two bytes at `at`.
pub open spec fn count_at(data: Seq<u8>, at: int) -> int {
    data[at] * 0x100 + data[at + 1]
}

/// The record of number `i` in a stream whose first record stands at `first`.
pub open spec fn record_at(data: Seq<u8>, first: int, i: int) -> Seq<u8> {
    data.subrange(first + 2 * i, first + 2 * i + 2)
}

/// The place of the first record of the stick stream.
pub open spec fn stick_start(data: Seq<u8>) -> int {
    8 + 2 * count_at(data, 0)
}

/// The place of the first record of the directional pad stream.
pub open spec fn dpad_start(data: Seq<u8>) -> int {
    8 + 2 * count_at(data, 0) + 2 * count_at(data, 2)
}

/// The place behind the last record.
pub open spec fn streams_end(data: Seq<u8>) -> int {
    8 + 2 * count_at(data, 0) + 2 * count_at(data, 2) + 2 * count_at(data, 4)
}

/// The face button stream as it is written, record by record.
pub open spec fn face_records(data: Seq<u8>) -> Seq<Run<Seq<FaceButton>>> {
    Seq::new(count_at(data, 0) as nat, |i: int| face_run(record_at(data, 8, i)))
}

/// Whether every record of the face button stream holds a legal button
/// byte.
pub open spec fn face_records_valid(data: Seq<u8>) -> bool {
    forall|i: int| 0 <= i < count_at(data, 0) ==> legal_face_byte(#[trigger] record_at(data, 8, i)[0])
}

/// The stick stream as it is written, record by record.
pub open spec fn stick_records(data: Seq<u8>) -> Seq<Run<(i8, i8)>> {
    Seq::new(count_at(data, 2) as nat, |i: int| stick_run(record_at(data, stick_start(data), i)))
}

/// Whether every record of the stick stream holds two axes that exist.
pub open spec fn stick_records_valid(data: Seq<u8>) -> bool {
    forall|i: int|
        0 <= i < count_at(data, 2) ==> stick_axes_valid(
            #[trigger] record_at(data, stick_start(data), i)[0],
        )
}

/// Whether every record of the directional pad stream names a direction
/// that exists.
pub open spec fn dpad_records_valid(data: Seq<u8>) -> bool {
    forall|i: int|
        0 <= i < count_at(data, 4) ==> dpad_button_of(
            #[trigger] record_at(data, dpad_start(data), i)[0],
        ) is Ok
}

/// The directional pad stream as it is written, record by record.
pub open spec fn dpad_records(data: Seq<u8>) -> Seq<Run<DPadButton>> {
    Seq::new(
        count_at(data, 4) as nat,
        |i: int|
            Run {
                state: dpad_button_of(record_at(data, dpad_start(data), i)[0])->Ok_0,
                frames: dpad_frames(record_at(data, dpad_start(data), i)),
            },
    )
}

/// What an input region holds.
pub struct InputDataView {
    pub face_input_count: u16,
    pub stick_input_count: u16,
    pub dpad_input_count: u16,
    pub face_inputs: Seq<Run<Seq<FaceButton>>>,
    pub stick_inputs: Seq<Run<(i8, i8)>>,
    pub dpad_inputs: Seq<Run<DPadButton>>,
}

/// What the bytes of the streams hold, or why they cannot be read.
///
/// The counts are those of the records as written. In the face button and
/// the stick stream, records in a row that hold the same state are one run.
/// The streams are read in their order: the error is that of the first
/// stream that holds a record which cannot be read.
#[verifier::opaque]
pub open spec fn decoded_streams(data: Seq<u8>) -> Result<InputDataView, InputDataError> {
    if data.len() < 8 || data.len() < streams_end(data) {
        Err(InputDataError::NotEnoughData)
    } else if !face_records_valid(data) {
        Err(
            InputDataError::FaceInputError(
                FaceInputError::InvalidButton(FaceButtonError::IllegalDriftInput),
            ),
        )
    } else if !stick_records_valid(data) {
        Err(InputDataError::StickInputError(StickInputError::InvalidStickInput))
    } else if !dpad_records_valid(data) {
        Err(
            InputDataError::DPadInputError(
                DPadInputError::InvalidButton(DPadButtonError::NonExistentDPadButton),
            ),
        )
    } else {
        Ok(
            InputDataView {
                face_input_count: count_at(data, 0) as u16,
                stick_input_count: count_at(data, 2) as u16,
                dpad_input_count: count_at(data, 4) as u16,
                face_inputs: merge_runs(face_records(data)),
                stick_inputs: merge_runs(stick_records(data)),
                dpad_inputs: dpad_records(data),
            },
        )
    }
}

/// What an input region holds, or why it cannot be read.
pub open spec fn decoded_input(region: Seq<u8>) -> Result<InputDataView, InputDataError> {
    match input_payload(region) {
        Ok(data) => decoded_streams(data),
        Err(e) => Err(e),
    }
}


/// The frames that `count` records tell of in their second bytes, the
/// first record standing at `first`.
pub open spec fn frames_written(data: Seq<u8>, first: int, count: nat) -> nat
    decreases count,
{
    if count == 0 {
        0
    } else {
        frames_written(data, first, (count - 1) as nat) + record_at(
            data,
            first,
            count - 1,
        )[1] as nat
    }
}

/// The frames that `count` records of the directional pad stream tell of,
/// the first record standing at `first`.
pub open spec fn dpad_frames_written(data: Seq<u8>, first: int, count: nat) -> nat
    decreases count,
{
    if count == 0 {
        0
    } else {
        dpad_frames_written(data, first, (count - 1) as nat) + dpad_frames(
            record_at(data, first, count - 1),
        )
    }
}

proof fn lemma_face_records_total(data: Seq<u8>, count: nat)
    ensures
        total_frames(Seq::new(count, |i: int| face_run(record_at(data, 8, i)))) == frames_written(
            data,
            8,
            count,
        ),
    decreases count,
{
    let records = Seq::new(count, |i: int| face_run(record_at(data, 8, i)));
    if count > 0 {
        lemma_face_records_total(data, (count - 1) as nat);
        assert(records.drop_last() =~= Seq::new(
            (count - 1) as nat,
            |i: int| face_run(record_at(data, 8, i)),
        ));
    }
}

proof fn lemma_stick_records_total(data: Seq<u8>, first: int, count: nat)
    ensures
        total_frames(Seq::new(count, |i: int| stick_run(record_at(data, first, i))))
            == frames_written(data, first, count),
    decreases count,
{
    let records = Seq::new(count, |i: int| stick_run(record_at(data, first, i)));
    if count > 0 {
        lemma_stick_records_total(data, first, (count - 1) as nat);
        assert(records.drop_last() =~= Seq::new(
            (count - 1) as nat,
            |i: int| stick_run(record_at(data, first, i)),
        ));
    }
}

proof fn lemma_dpad_records_total(data: Seq<u8>, first: int, count: nat)
    ensures
        total_frames(
            Seq::new(
                count,
                |i: int|
                    Run {
                        state: dpad_button_of(record_at(data, first, i)[0])->Ok_0,
                        frames: dpad_frames(record_at(data, first, i)),
                    },
            ),
        ) == dpad_frames_written(data, first, count),
    decreases count,
{
    let records = Seq::new(
        count,
        |i: int|
            Run {
                state: dpad_button_of(record_at(data, first, i)[0])->Ok_0,
                frames: dpad_frames(record_at(data, first, i)),
            },
    );
    if count > 0 {
        lemma_dpad_records_total(data, first, (count - 1) as nat);
        assert(records.drop_last() =~= Seq::new(
            (count - 1) as nat,
            |i: int|
                Run {
                    state: dpad_button_of(record_at(data, first, i)[0])->Ok_0,
                    frames: dpad_frames(record_at(data, first, i)),
                },
        ));
    }
}

/// Each stream that is read lasts exactly the frames that its records tell
/// of, merged or not; and in the face button and the stick stream no two
/// neighbours are in the same state.
pub proof fn lemma_streams_keep_their_frames(data: Seq<u8>)
    requires
        decoded_streams(data) is Ok,
    ensures
        ({
            let streams = decoded_streams(data)->Ok_0;
            &&& total_frames(streams.face_inputs) == frames_written(
                data,
                8,
                count_at(data, 0) as nat,
            )
            &&& total_frames(streams.stick_inputs) == frames_written(
                data,
                stick_start(data),
                count_at(data, 2) as nat,
            )
            &&& total_frames(streams.dpad_inputs) == dpad_frames_written(
                data,
                dpad_start(data),
                count_at(data, 4) as nat,
            )
            &&& no_equal_neighbours(streams.face_inputs)
            &&& no_equal_neighbours(streams.stick_inputs)
        }),
{
    reveal(decoded_streams);
    lemma_merge_runs(face_records(data));
    lemma_merge_runs(stick_records(data));
    lemma_face_records_total(data, count_at(data, 0) as nat);
    lemma_stick_records_total(data, stick_start(data), count_at(data, 2) as nat);
    lemma_dpad_records_total(data, dpad_start(data), count_at(data, 4) as nat);
}

/// All the controller input of a ghost.
pub struct InputData {
    face_input_count: u16,
    stick_input_count: u16,
    dpad_input_count: u16,
    face_inputs: Vec<FaceInput>,
    stick_inputs: Vec<StickInput>,
    dpad_inputs: Vec<DPadInput>,
}

impl View for InputData {
    type V = InputDataView;

    closed spec fn view(&self) -> InputDataView {
        InputDataView {
            face_input_count: self.face_input_count,
            stick_input_count: self.stick_input_count,
            dpad_input_count: self.dpad_input_count,
            face_inputs: runs_of(self.face_inputs@),
            stick_inputs: runs_of(self.stick_inputs@),
            dpad_inputs: runs_of(self.dpad_inputs@),
        }
    }
}

/// The bytes of the streams of an input region: a copy of the region, or
/// what it unpacks to.
pub fn unpack_input(region: &[u8]) -> (r: Result<Vec<u8>, InputDataError>)
    ensures
        match r {
            Ok(data) => input_payload(region@) == Ok::<_, InputDataError>(data@),
            Err(e) => input_payload(region@) == Err::<Seq<u8>, _>(e),
        },
{
    if region.len() < 8 {
        return Err(InputDataError::NotEnoughData);
    }
    let packed = region[4] == 0x59 && region[5] == 0x61 && region[6] == 0x7A && region[7] == 0x31;
    proof {
        let tag = region@.subrange(4, 8);
        assert(tag[0] == region@[4] && tag[1] == region@[5] && tag[2] == region@[6] && tag[3]
            == region@[7]);
        if packed {
            assert(tag =~= yaz1_magic());
        }
    }
    if packed {
        // packed as Yaz1 data
        match yaz1_decompress(slice_subrange(region, 4, region.len())) {
            Some(data) => Ok(data),
            None => Err(InputDataError::DecompressionFailed),
        }
    } else {
        Ok(slice_to_vec(region))
    }
}

fn read_count(data: &[u8], at: usize) -> (r: u16)
    requires
        at + 1 < data@.len(),
    ensures
        r == count_at(data@, at as int),
{
    data[at] as u16 * 0x100 + data[at + 1] as u16
}

fn decode_face_inputs(data: &[u8], count: usize) -> (r: Result<Vec<FaceInput>, FaceInputError>)
    requires
        data@.len() >= 8,
        count == count_at(data@, 0),
        8 + 2 * count <= data@.len(),
    ensures
        match r {
            Ok(inputs) => face_records_valid(data@) && runs_of(inputs@) == merge_runs(
                face_records(data@),
            ),
            Err(e) => !face_records_valid(data@) && e == FaceInputError::InvalidButton(
                FaceButtonError::IllegalDriftInput,
            ),
        },
{
    let ghost records = face_records(data@);
    let mut inputs: Vec<FaceInput> = Vec::new();
    let mut i: usize = 0;
    assert(records.take(0) =~= Seq::empty());
    assert(runs_of(inputs@) =~= Seq::empty());
    while i < count
        invariant
            i <= count,
            records == face_records(data@),
            records.len() == count,
            count == count_at(data@, 0),
            8 + 2 * count <= data@.len(),
            runs_of(inputs@) == merge_runs(records.take(i as int)),
            inputs@.len() > 0 ==> runs_of(inputs@).last().frames <= 255 * i,
            forall|j: int| 0 <= j < i ==> legal_face_byte(#[trigger] record_at(data@, 8, j)[0]),
        decreases count - i,
    {
        let idx = 8 + 2 * i;
        let record = slice_subrange(data, idx, idx + 2);
        assert(record@ == record_at(data@, 8, i as int));
        let input = match FaceInput::try_from(record) {
            Ok(input) => input,
            Err(e) => {
                assert(!legal_face_byte(record_at(data@, 8, i as int)[0]));
                return Err(e);
            },
        };
        proof {
            assert(records.take(i + 1).drop_last() =~= records.take(i as int));
            assert(records.take(i + 1).last() == input@);
            assert(runs_of(inputs@).len() == inputs@.len());
        }
        let ghost before = inputs@;
        // a state that is held for longer than one record can tell goes on in
        // the next record: the two are one run
        let merge = inputs.len() > 0 && inputs[inputs.len() - 1] == input;
        if merge {
            let mut last = inputs.pop().unwrap();
            let frames = last.frame_duration() + input.frame_duration();
            last.set_frame_duration(frames);
            inputs.push(last);
            assert(runs_of(inputs@) =~= runs_of(before).update(
                before.len() - 1,
                Run {
                    state: input@.state,
                    frames: runs_of(before).last().frames + input@.frames,
                },
            ));
        } else {
            inputs.push(input);
            assert(runs_of(inputs@) =~= runs_of(before).push(input@));
        }
        i += 1;
    }
    assert(records.take(i as int) =~= records);
    Ok(inputs)
}

fn decode_stick_inputs(data: &[u8], first: usize, count: usize) -> (r: Result<
    Vec<StickInput>,
    StickInputError,
>)
    requires
        data@.len() >= 8,
        first == stick_start(data@),
        count == count_at(data@, 2),
        first + 2 * count <= data@.len(),
    ensures
        match r {
            Ok(inputs) => stick_records_valid(data@) && runs_of(inputs@) == merge_runs(
                stick_records(data@),
            ),
            Err(e) => !stick_records_valid(data@) && e == StickInputError::InvalidStickInput,
        },
{
    let ghost records = stick_records(data@);
    let mut inputs: Vec<StickInput> = Vec::new();
    let mut i: usize = 0;
    assert(records.take(0) =~= Seq::empty());
    assert(runs_of(inputs@) =~= Seq::empty());
    while i < count
        invariant
            i <= count,
            records == stick_records(data@),
            records.len() == count,
            first == stick_start(data@),
            count == count_at(data@, 2),
            first + 2 * count <= data@.len(),
            runs_of(inputs@) == merge_runs(records.take(i as int)),
            inputs@.len() > 0 ==> runs_of(inputs@).last().frames <= 255 * i,
            forall|j: int|
                0 <= j < i ==> stick_axes_valid(
                    #[trigger] record_at(data@, stick_start(data@), j)[0],
                ),
        decreases count - i,
    {
        let idx = first + 2 * i;
        let record = slice_subrange(data, idx, idx + 2);
        assert(record@ == record_at(data@, first as int, i as int));
        let input = match StickInput::try_from(record) {
            Ok(input) => input,
            Err(e) => {
                assert(!stick_axes_valid(record_at(data@, stick_start(data@), i as int)[0]));
                return Err(e);
            },
        };
        proof {
            assert(records.take(i + 1).drop_last() =~= records.take(i as int));
            assert(records.take(i + 1).last() == input@);
            assert(runs_of(inputs@).len() == inputs@.len());
        }
        let ghost before = inputs@;
        let merge = inputs.len() > 0 && inputs[inputs.len() - 1] == input;
        if merge {
            let mut last = inputs.pop().unwrap();
            let frames = last.frame_duration() + input.frame_duration();
            last.set_frame_duration(frames);
            inputs.push(last);
            assert(runs_of(inputs@) =~= runs_of(before).update(
                before.len() - 1,
                Run {
                    state: input@.state,
                    frames: runs_of(before).last().frames + input@.frames,
                },
            ));
        } else {
            inputs.push(input);
            assert(runs_of(inputs@) =~= runs_of(before).push(input@));
        }
        i += 1;
    }
    assert(records.take(i as int) =~= records);
    Ok(inputs)
}

fn decode_dpad_inputs(data: &[u8], first: usize, count: usize) -> (r: Result<
    Vec<DPadInput>,
    DPadInputError,
>)
    requires
        data@.len() >= 8,
        first == dpad_start(data@),
        count == count_at(data@, 4),
        first + 2 * count <= data@.len(),
    ensures
        match r {
            Ok(inputs) => dpad_records_valid(data@) && runs_of(inputs@) == dpad_records(data@),
            Err(e) => !dpad_records_valid(data@) && e == DPadInputError::InvalidButton(
                DPadButtonError::NonExistentDPadButton,
            ),
        },
{
    let ghost records = dpad_records(data@);
    let mut inputs: Vec<DPadInput> = Vec::new();
    let mut i: usize = 0;
    assert(runs_of(inputs@) =~= records.take(0));
    while i < count
        invariant
            i <= count,
            records == dpad_records(data@),
            records.len() == count,
            first == dpad_start(data@),
            count == count_at(data@, 4),
            first + 2 * count <= data@.len(),
            runs_of(inputs@) == records.take(i as int),
            forall|j: int|
                0 <= j < i ==> dpad_button_of(
                    #[trigger] record_at(data@, dpad_start(data@), j)[0],
                ) is Ok,
        decreases count - i,
    {
        let idx = first + 2 * i;
        let record = slice_subrange(data, idx, idx + 2);
        assert(record@ == record_at(data@, first as int, i as int));
        let input = match DPadInput::try_from(record) {
            Ok(input) => input,
            Err(e) => {
                assert(dpad_button_of(record_at(data@, dpad_start(data@), i as int)[0]) is Err);
                return Err(e);
            },
        };
        let ghost before = inputs@;
        inputs.push(input);
        assert(runs_of(inputs@) =~= runs_of(before).push(input@));
        i += 1;
        assert(records.take(i as int) =~= records.take(i - 1).push(records[i - 1]));
    }
    assert(records.take(i as int) =~= records);
    Ok(inputs)
}

impl InputData {
    /// Reads the input region of a ghost: the bytes between the header and
    /// the footer.
    pub fn new(input_data: &[u8]) -> (r: Result<Self, InputDataError>)
        ensures
            match r {
                Ok(inputs) => decoded_input(input_data@) == Ok::<_, InputDataError>(inputs@),
                Err(e) => decoded_input(input_data@) == Err::<InputDataView, _>(e),
            },
    {
        let input_data = match unpack_input(input_data) {
            Ok(data) => data,
            Err(e) => {
                return Err(e);
            },
        };
        Self::from_unpacked(input_data.as_slice())
    }

    /// Reads the streams out of their bytes: out of an input region that is
    /// not packed, or out of what a packed one unpacks to.
    pub fn from_unpacked(data: &[u8]) -> (r: Result<Self, InputDataError>)
        ensures
            match r {
                Ok(inputs) => decoded_streams(data@) == Ok::<_, InputDataError>(inputs@),
                Err(e) => decoded_streams(data@) == Err::<InputDataView, _>(e),
            },
    {
        proof {
            reveal(decoded_streams);
        }
        if data.len() < 8 {
            return Err(InputDataError::NotEnoughData);
        }

        let face_input_count = read_count(data, 0);
        let stick_input_count = read_count(data, 2);
        let dpad_input_count = read_count(data, 4);
        // bytes 6 and 7 are padding

        let stick_first = 8 + 2 * (face_input_count as usize);
        let dpad_first = stick_first + 2 * (stick_input_count as usize);
        let end = dpad_first + 2 * (dpad_input_count as usize);
        if data.len() < end {
            return Err(InputDataError::NotEnoughData);
        }

        let face_inputs = match decode_face_inputs(data, face_input_count as usize) {
            Ok(inputs) => inputs,
            Err(e) => {
                return Err(InputDataError::FaceInputError(e));
            },
        };
        let stick_inputs = match decode_stick_inputs(
            data,
            stick_first,
            stick_input_count as usize,
        ) {
            Ok(inputs) => inputs,
            Err(e) => {
                return Err(InputDataError::StickInputError(e));
            },
        };
        let dpad_inputs = match decode_dpad_inputs(data, dpad_first, dpad_input_count as usize) {
            Ok(inputs) => inputs,
            Err(e) => {
                return Err(InputDataError::DPadInputError(e));
            },
        };

        Ok(
            Self {
                face_input_count,
                stick_input_count,
                dpad_input_count,
                face_inputs,
                stick_inputs,
                dpad_inputs,
            },
        )
    }

    /// The timeline of the race: the three streams laid over one another.
    pub fn inputs(&self) -> (r: Vec<Input>)
        ensures
            runs_of(r@) == timeline(self@.face_inputs, self@.stick_inputs, self@.dpad_inputs),
    {
        merge_timeline(
            self.face_inputs.as_slice(),
            self.stick_inputs.as_slice(),
            self.dpad_inputs.as_slice(),
        )
    }

    /// The next entry of the timeline from a place on, and the place behind
    /// it; or nothing, where all streams have run out there.
    pub fn next_input(&self, place: &mut TimelinePlace) -> (r: Option<Input>)
        ensures
            match r {
                Some(input) => {
                    &&& timeline_at(
                        self@.face_inputs,
                        self@.stick_inputs,
                        self@.dpad_inputs,
                        *old(place),
                    ) == seq![input@] + timeline_at(
                        self@.face_inputs,
                        self@.stick_inputs,
                        self@.dpad_inputs,
                        *final(place),
                    )
                    &&& runs_ahead_of(
                        self@.face_inputs,
                        self@.stick_inputs,
                        self@.dpad_inputs,
                        *final(place),
                    ) < runs_ahead_of(
                        self@.face_inputs,
                        self@.stick_inputs,
                        self@.dpad_inputs,
                        *old(place),
                    )
                },
                None => {
                    &&& timeline_at(
                        self@.face_inputs,
                        self@.stick_inputs,
                        self@.dpad_inputs,
                        *old(place),
                    ) == Seq::<Run<crate::input_data::input::InputState>>::empty()
                    &&& *final(place) == *old(place)
                },
            },
    {
        next_input(
            self.face_inputs.as_slice(),
            self.stick_inputs.as_slice(),
            self.dpad_inputs.as_slice(),
            place,
        )
    }

    pub fn face_inputs(&self) -> (r: &[FaceInput])
        ensures
            runs_of(r@) == self@.face_inputs,
    {
        self.face_inputs.as_slice()
    }

    pub fn stick_inputs(&self) -> (r: &[StickInput])
        ensures
            runs_of(r@) == self@.stick_inputs,
    {
        self.stick_inputs.as_slice()
    }

    pub fn dpad_inputs(&self) -> (r: &[DPadInput])
        ensures
            runs_of(r@) == self@.dpad_inputs,
    {
        self.dpad_inputs.as_slice()
    }

    pub fn face_input_count(&self) -> (r: u16)
        ensures
            r == self@.face_input_count,
    {
        self.face_input_count
    }

    pub fn stick_input_count(&self) -> (r: u16)
        ensures
            r == self@.stick_input_count,
    {
        self.stick_input_count
    }

    pub fn dpad_input_count(&self) -> (r: u16)
        ensures
            r == self@.dpad_input_count,
    {
        self.dpad_input_count
    }
}

} // verus!
