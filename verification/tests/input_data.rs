use rkg_utils::input_data::dpad_input::{
    parse_dpad_button, DPadButton, DPadButtonError, DPadInput, DPadInputError,
};
use rkg_utils::input_data::face_input::{
    copy_buttons, parse_face_buttons, same_buttons, FaceButton, FaceButtonError, FaceInput,
    FaceInputError,
};
use rkg_utils::input_data::dpad_input::DPadButton::{Down, Neutral, Up};
use rkg_utils::input_data::face_input::FaceButton::{Accelerator, Brake, Item, Unknown};
use rkg_utils::input_data::input::Input;
use rkg_utils::input_data::stick_input::{StickInput, StickInputError};
use rkg_utils::input_data::timeline::{merge_timeline, next_input, TimelinePlace};
use rkg_utils::input_data::{unpack_input, InputData, InputDataError};

/// A region of unpacked streams.
fn region(face: &[[u8; 2]], stick: &[[u8; 2]], dpad: &[[u8; 2]]) -> Vec<u8> {
    let mut data = Vec::new();
    data.extend_from_slice(&(face.len() as u16).to_be_bytes());
    data.extend_from_slice(&(stick.len() as u16).to_be_bytes());
    data.extend_from_slice(&(dpad.len() as u16).to_be_bytes());
    data.extend_from_slice(&[0, 0]);
    for record in face.iter().chain(stick).chain(dpad) {
        data.extend_from_slice(record);
    }
    data
}

/// The same bytes packed as Yaz1 data, all of them literal, behind the four
/// bytes that a packed region opens with.
fn packed(data: &[u8]) -> Vec<u8> {
    let mut out = vec![0, 0, 0, 0, 0x59, 0x61, 0x7A, 0x31];
    out.extend_from_slice(&(data.len() as u32).to_be_bytes());
    out.extend_from_slice(&[0; 8]);
    for group in data.chunks(8) {
        out.push(0xFF);
        out.extend_from_slice(group);
    }
    out
}

#[test]
fn face_buttons_are_read_from_their_bits() {
    assert_eq!(parse_face_buttons(0x00).unwrap(), vec![]);
    assert_eq!(parse_face_buttons(0x01).unwrap(), vec![Accelerator]);
    assert_eq!(parse_face_buttons(0x02).unwrap(), vec![Brake]);
    assert_eq!(parse_face_buttons(0x03).unwrap(), vec![Accelerator, Brake]);
    // the drift bit adds no button to the brake
    assert_eq!(parse_face_buttons(0x0B).unwrap(), vec![Accelerator, Brake]);
    assert_eq!(parse_face_buttons(0x0F).unwrap(), vec![Accelerator, Brake, Item]);
    assert_eq!(parse_face_buttons(0x04).unwrap(), vec![Item]);
    assert_eq!(parse_face_buttons(0x07).unwrap(), vec![Accelerator, Brake, Item]);
    assert_eq!(parse_face_buttons(0x10).unwrap(), vec![Unknown]);
    assert_eq!(parse_face_buttons(0x81).unwrap(), vec![Accelerator, Unknown]);
}

#[test]
fn pause_mask_stands_for_no_button() {
    assert_eq!(parse_face_buttons(0x40).unwrap(), vec![]);
    assert_eq!(parse_face_buttons(0x41).unwrap(), vec![Accelerator]);
    assert_eq!(parse_face_buttons(0x45).unwrap(), parse_face_buttons(0x05).unwrap());
    // beside the pause mask the other upper bits count for nothing
    assert_eq!(parse_face_buttons(0xF0).unwrap(), vec![]);
}

#[test]
fn drift_bit_needs_accelerator_and_brake() {
    let mut legal = 0;
    for value in 0..=255u8 {
        let drift = value & 0x08 != 0;
        let both = value & 0x03 == 0x03;
        match parse_face_buttons(value) {
            Ok(buttons) => {
                assert!(!drift || both, "{:#04X}", value);
                assert_eq!(buttons.is_empty(), value & 0x0F == 0 && (value & 0xF0 == 0 || value & 0x40 != 0));
                legal += 1;
            }
            Err(e) => {
                assert!(drift && !both, "{:#04X}", value);
                assert_eq!(e, FaceButtonError::IllegalDriftInput);
            }
        }
    }
    // half of the bytes hold no drift bit, a quarter of the others both buttons
    assert_eq!(legal, 128 + 32);
    for value in [0x08u8, 0x09, 0x0A, 0x0C, 0x0D, 0x0E, 0x48, 0x4A, 0x89] {
        assert_eq!(parse_face_buttons(value).unwrap_err(), FaceButtonError::IllegalDriftInput);
    }
    // the pause mask changes nothing of it
    assert_eq!(parse_face_buttons(0x4B).unwrap(), vec![Accelerator, Brake]);
}

#[test]
fn face_record_of_an_illegal_byte_is_an_error() {
    assert_eq!(
        FaceInput::try_from(&[0x08, 1]).unwrap_err(),
        FaceInputError::InvalidButton(FaceButtonError::IllegalDriftInput)
    );
    // a record that is too short is told first
    assert_eq!(FaceInput::try_from(&[0x08]).unwrap_err(), FaceInputError::InvalidFaceInput);
    let illegal = Some(InputDataError::FaceInputError(FaceInputError::InvalidButton(
        FaceButtonError::IllegalDriftInput,
    )));
    // in the last record as in the first
    let data = region(&[[0x01, 1], [0x03, 1], [0x0A, 1]], &[[0x77, 3]], &[[0x00, 3]]);
    assert_eq!(InputData::new(&data).err(), illegal);
    assert_eq!(InputData::new(&packed(&data)).err(), illegal);
    let data = region(&[[0x09, 1], [0x03, 1]], &[[0x77, 2]], &[[0x00, 2]]);
    assert_eq!(InputData::from_unpacked(&data).err(), illegal);
    // the face button stream is read before the other two
    let data = region(&[[0x08, 1]], &[[0x7F, 1]], &[[0x70, 1]]);
    assert_eq!(InputData::new(&data).err(), illegal);
    // a region that ends early is told before its records are read
    let mut data = region(&[[0x08, 1]], &[[0x77, 1]], &[[0x00, 1]]);
    data.pop();
    assert_eq!(InputData::new(&data).err(), Some(InputDataError::NotEnoughData));
    // with both buttons down the drift bit is read
    let data = region(&[[0x0B, 1]], &[[0x77, 1]], &[[0x00, 1]]);
    assert_eq!(InputData::new(&data).unwrap().face_inputs()[0].buttons(), &vec![Accelerator, Brake]);
}

#[test]
#[should_panic(expected = "FaceInputError(InvalidButton(IllegalDriftInput))")]
fn illegal_drift_input_test() {
    // a race in which the drift bit is set in a record without the brake
    let rkg_data = packed(&region(
        &[[0x01, 120], [0x03, 10], [0x09, 40], [0x01, 30]],
        &[[0x77, 200]],
        &[[0x00, 200]],
    ));

    // This line should always fail
    let _input_data = InputData::new(&rkg_data).expect("Failed to read input data");
}

#[test]
#[should_panic(expected = "FaceInputError(InvalidButton(IllegalDriftInput))")]
fn illegal_brake_input_test() {
    // a race in which the brake and the drift bit are set in a record
    // without the accelerator
    let rkg_data = packed(&region(
        &[[0x01, 120], [0x0A, 50], [0x01, 30]],
        &[[0x77, 200]],
        &[[0x00, 200]],
    ));

    // This line should always fail
    let _input_data = InputData::new(&rkg_data).expect("Failed to read input data");
}

#[test]
fn face_record_is_two_bytes() {
    let input = FaceInput::try_from(&[0x05, 200]).unwrap();
    assert_eq!(input.buttons(), &vec![FaceButton::Accelerator, FaceButton::Item]);
    assert_eq!(input.frame_duration(), 200);
    assert_eq!(FaceInput::try_from(&[0x05]).unwrap_err(), FaceInputError::InvalidFaceInput);
    assert_eq!(FaceInput::try_from(&[]).unwrap_err(), FaceInputError::InvalidFaceInput);
    // bytes behind the record are not looked at
    assert_eq!(FaceInput::try_from(&[0x01, 3, 9, 9]).unwrap().frame_duration(), 3);
}

#[test]
fn face_records_compare_by_their_buttons() {
    let mut a = FaceInput::try_from(&[0x01, 10]).unwrap();
    let b = FaceInput::try_from(&[0x41, 99]).unwrap();
    let c = FaceInput::try_from(&[0x03, 10]).unwrap();
    assert!(a == b);
    assert!(a != c);
    a.set_frame_duration(1234);
    assert_eq!(a.frame_duration(), 1234);
    assert_eq!(a.buttons(), &vec![FaceButton::Accelerator]);
    let longer = a.with_buttons_of(7);
    assert_eq!(longer.frame_duration(), 7);
    assert!(longer == a);
    assert!(same_buttons(a.buttons(), b.buttons()));
    assert!(!same_buttons(a.buttons(), c.buttons()));
    assert_eq!(copy_buttons(c.buttons()), vec![FaceButton::Accelerator, FaceButton::Brake]);
}

#[test]
fn stick_record_is_moved_to_the_middle() {
    let input = StickInput::try_from(&[0x77, 5]).unwrap();
    assert_eq!((input.x(), input.y(), input.frame_duration()), (0, 0, 5));
    let input = StickInput::try_from(&[0x0E, 255]).unwrap();
    assert_eq!((input.x(), input.y(), input.frame_duration()), (-7, 7, 255));
    let input = StickInput::try_from(&[0xE0, 0]).unwrap();
    assert_eq!((input.x(), input.y()), (7, -7));
    let mut input = StickInput::try_from(&[0x38, 1]).unwrap();
    assert_eq!((input.x(), input.y()), (-4, 1));
    input.set_frame_duration(77);
    assert_eq!(input.frame_duration(), 77);
    assert!(input == StickInput::try_from(&[0x38, 200]).unwrap());
    assert!(input != StickInput::try_from(&[0x39, 77]).unwrap());
}

#[test]
fn stick_axis_of_fifteen_is_an_error() {
    assert_eq!(StickInput::try_from(&[0xF0, 1]).unwrap_err(), StickInputError::InvalidStickInput);
    assert_eq!(StickInput::try_from(&[0x0F, 1]).unwrap_err(), StickInputError::InvalidStickInput);
    assert_eq!(StickInput::try_from(&[0xFF, 1]).unwrap_err(), StickInputError::InvalidStickInput);
    assert_eq!(StickInput::try_from(&[0x77]).unwrap_err(), StickInputError::InvalidStickInput);
    for first in 0..=255u8 {
        let valid = first >> 4 <= 14 && first & 0x0F <= 14;
        assert_eq!(StickInput::try_from(&[first, 0]).is_ok(), valid);
    }
}

#[test]
fn dpad_button_is_three_bits() {
    assert_eq!(parse_dpad_button(0x00), Ok(DPadButton::Neutral));
    assert_eq!(parse_dpad_button(0x10), Ok(DPadButton::Up));
    assert_eq!(parse_dpad_button(0x20), Ok(DPadButton::Down));
    assert_eq!(parse_dpad_button(0x30), Ok(DPadButton::Left));
    assert_eq!(parse_dpad_button(0x40), Ok(DPadButton::Right));
    assert_eq!(parse_dpad_button(0x50), Err(DPadButtonError::NonExistentDPadButton));
    assert_eq!(parse_dpad_button(0x60), Err(DPadButtonError::NonExistentDPadButton));
    assert_eq!(parse_dpad_button(0x70), Err(DPadButtonError::NonExistentDPadButton));
    // the top bit and the lower half belong to other things
    assert_eq!(parse_dpad_button(0x9F), Ok(DPadButton::Up));
}

#[test]
fn dpad_record_counts_rounds_of_256_frames() {
    let input = DPadInput::try_from(&[0x10, 7]).unwrap();
    assert_eq!((input.button(), input.frame_duration()), (DPadButton::Up, 7));
    let input = DPadInput::try_from(&[0x23, 7]).unwrap();
    assert_eq!((input.button(), input.frame_duration()), (DPadButton::Down, 3 * 256 + 7));
    let input = DPadInput::try_from(&[0x0F, 255]).unwrap();
    assert_eq!((input.button(), input.frame_duration()), (DPadButton::Neutral, 4095));
    assert_eq!(
        DPadInput::try_from(&[0x50, 1]).unwrap_err(),
        DPadInputError::InvalidButton(DPadButtonError::NonExistentDPadButton)
    );
    assert_eq!(DPadInput::try_from(&[0x10]).unwrap_err(), DPadInputError::InvalidDpadInput);
    assert!(input == DPadInput::try_from(&[0x00, 1]).unwrap());
}

#[test]
fn streams_are_read_in_turn() {
    let data = region(
        &[[0x01, 10], [0x05, 20]],
        &[[0x77, 15], [0x07, 15]],
        &[[0x00, 20], [0x10, 10]],
    );
    let inputs = InputData::new(&data).unwrap();
    assert_eq!(inputs.face_input_count(), 2);
    assert_eq!(inputs.stick_input_count(), 2);
    assert_eq!(inputs.dpad_input_count(), 2);
    assert_eq!(inputs.face_inputs().len(), 2);
    assert_eq!(inputs.face_inputs()[1].buttons(), &vec![FaceButton::Accelerator, FaceButton::Item]);
    assert_eq!(inputs.face_inputs()[1].frame_duration(), 20);
    assert_eq!((inputs.stick_inputs()[1].x(), inputs.stick_inputs()[1].y()), (-7, 0));
    assert_eq!(inputs.dpad_inputs()[1].button(), DPadButton::Up);
    assert_eq!(inputs.dpad_inputs()[1].frame_duration(), 10);
}

#[test]
fn records_in_a_row_in_the_same_state_are_one_run() {
    let data = region(
        &[[0x01, 255], [0x01, 255], [0x01, 90], [0x03, 5], [0x01, 5], [0x01, 0]],
        &[[0x77, 255], [0x77, 100], [0x78, 1], [0x78, 2], [0x78, 3]],
        &[[0x00, 9], [0x00, 9]],
    );
    let inputs = InputData::new(&data).unwrap();
    // the counts are those of the records as written
    assert_eq!(inputs.face_input_count(), 6);
    assert_eq!(inputs.stick_input_count(), 5);
    let face: Vec<u32> = inputs.face_inputs().iter().map(|f| f.frame_duration()).collect();
    assert_eq!(face, vec![600, 5, 5]);
    let stick: Vec<u32> = inputs.stick_inputs().iter().map(|s| s.frame_duration()).collect();
    assert_eq!(stick, vec![355, 6]);
    // the directional pad stream is left as written
    assert_eq!(inputs.dpad_inputs().len(), 2);
}

#[test]
fn merged_streams_keep_their_frames() {
    let face = [[0x01, 255], [0x01, 255], [0x41, 7], [0x00, 3], [0x00, 0], [0x05, 1]];
    let stick = [[0x77, 200], [0x77, 200], [0x12, 121]];
    let dpad = [[0x01, 9], [0x11, 0]];
    let inputs = InputData::new(&region(&face, &stick, &dpad)).unwrap();
    let written: u32 = face.iter().map(|r| r[1] as u32).sum();
    let read: u32 = inputs.face_inputs().iter().map(|f| f.frame_duration()).sum();
    assert_eq!(read, written);
    let written: u32 = stick.iter().map(|r| r[1] as u32).sum();
    let read: u32 = inputs.stick_inputs().iter().map(|s| s.frame_duration()).sum();
    assert_eq!(read, written);
    let read: u32 = inputs.dpad_inputs().iter().map(|d| d.frame_duration()).sum();
    assert_eq!(read, 256 + 9 + 256);
    for pair in inputs.face_inputs().windows(2) {
        assert!(pair[0] != pair[1]);
    }
    for pair in inputs.stick_inputs().windows(2) {
        assert!(pair[0] != pair[1]);
    }
}

#[test]
fn empty_streams_are_read() {
    let inputs = InputData::new(&region(&[], &[], &[])).unwrap();
    assert_eq!(inputs.face_inputs().len(), 0);
    assert_eq!(inputs.stick_inputs().len(), 0);
    assert_eq!(inputs.dpad_inputs().len(), 0);
    assert_eq!(inputs.inputs().len(), 0);
}

#[test]
fn region_that_ends_early_is_an_error() {
    assert_eq!(InputData::new(&[]).err(), Some(InputDataError::NotEnoughData));
    assert_eq!(InputData::new(&[0, 0, 0, 0, 0, 0, 0]).err(), Some(InputDataError::NotEnoughData));
    let mut data = region(&[[0x01, 1]], &[[0x77, 1]], &[[0x00, 1]]);
    data.pop();
    assert_eq!(InputData::new(&data).err(), Some(InputDataError::NotEnoughData));
    data.push(1);
    assert!(InputData::new(&data).is_ok());
}

#[test]
fn record_that_cannot_be_read_is_an_error() {
    let data = region(&[[0x01, 1]], &[[0x77, 1], [0xF7, 1]], &[[0x00, 1]]);
    assert_eq!(
        InputData::new(&data).err(),
        Some(InputDataError::StickInputError(StickInputError::InvalidStickInput))
    );
    let data = region(&[[0x01, 1]], &[[0x77, 1]], &[[0x00, 1], [0x70, 1]]);
    assert_eq!(
        InputData::new(&data).err(),
        Some(InputDataError::DPadInputError(DPadInputError::InvalidButton(
            DPadButtonError::NonExistentDPadButton
        )))
    );
    // the stick stream is read before the directional pad stream
    let data = region(&[], &[[0x7F, 1]], &[[0x70, 1]]);
    assert_eq!(
        InputData::new(&data).err(),
        Some(InputDataError::StickInputError(StickInputError::InvalidStickInput))
    );
}

#[test]
fn packed_region_is_unpacked() {
    let data = region(
        &[[0x01, 10], [0x01, 20]],
        &[[0x77, 30]],
        &[[0x00, 30]],
    );
    let inputs = InputData::new(&packed(&data)).unwrap();
    assert_eq!(inputs.face_input_count(), 2);
    assert_eq!(inputs.face_inputs().len(), 1);
    assert_eq!(inputs.face_inputs()[0].frame_duration(), 30);
    assert_eq!(unpack_input(&packed(&data)), Ok(data.clone()));
    assert_eq!(unpack_input(&data), Ok(data));
}

#[test]
fn broken_packed_region_is_an_error() {
    let data = region(&[[0x01, 10]], &[[0x77, 10]], &[[0x00, 10]]);
    let mut broken = packed(&data);
    broken.pop();
    assert_eq!(InputData::new(&broken).err(), Some(InputDataError::DecompressionFailed));
    // the declared length is another than that of what is packed
    let mut broken = packed(&data);
    broken[11] += 1;
    assert_eq!(InputData::new(&broken).err(), Some(InputDataError::DecompressionFailed));
    // what is packed is too short for streams
    let short = packed(&[0, 0, 0]);
    assert_eq!(InputData::new(&short).err(), Some(InputDataError::NotEnoughData));
}

#[test]
fn test_rkg_input_data() {
    // a race of 1782 frames, packed: 0x18 face records that pair up to 12
    // runs, 0x037B stick records of two frames each, and nine records of
    // the directional pad
    let mut face = Vec::new();
    let runs = [149u32, 148, 148, 148, 148, 148, 148, 148, 148, 148, 148, 153];
    for (i, frames) in runs.iter().enumerate() {
        let buttons = if i % 2 == 0 { 0x01 } else { 0x05 };
        face.push([buttons, (frames / 2) as u8]);
        face.push([buttons, (frames - frames / 2) as u8]);
    }
    let stick: Vec<[u8; 2]> = (0..0x037B).map(|i| [if i % 2 == 0 { 0x77 } else { 0x97 }, 2]).collect();
    let held = [200u8, 200, 200, 201, 200, 200, 200, 200, 181];
    let dpad: Vec<[u8; 2]> = held.iter().enumerate().map(|(i, frames)| [(i as u8 % 5) << 4, *frames]).collect();
    let data = region(&face, &stick, &dpad);
    let input_data = InputData::new(&packed(&data)).expect("Couldn't read input data");

    assert_eq!(input_data.face_input_count(), 0x18);
    assert_eq!(input_data.stick_input_count(), 0x037B);
    assert_eq!(input_data.dpad_input_count(), 0x09);
    assert_eq!(input_data.inputs().len(), 907);
    assert_eq!(input_data.face_inputs().len(), 12);
    assert_eq!(input_data.stick_inputs().len(), 891);
    assert_eq!(input_data.dpad_inputs().len(), 9);
    let frames: u32 = input_data.inputs().iter().map(|i| i.frame_duration()).sum();
    assert_eq!(frames, 1782);
}

#[test]
fn test_ctgp_pause_vs_vanilla_input_timing() {
    // the same race twice: as the game writes it, and as CTGP writes it,
    // packed and with the pause mask on the record of the pause
    let vanilla = region(
        &[[0x01, 100], [0x01, 50], [0x05, 20], [0x00, 30]],
        &[[0x77, 120], [0x27, 80]],
        &[[0x00, 200]],
    );
    let paused = region(
        &[[0x01, 100], [0x41, 50], [0x05, 20], [0x00, 30]],
        &[[0x77, 120], [0x27, 80]],
        &[[0x00, 200]],
    );
    let pause_inputs = InputData::new(&packed(&paused)).expect("Failed to read inputs from pause ghost");
    let vanilla_inputs = InputData::new(&vanilla).expect("Failed to read inputs from vanilla ghost");

    assert_eq!(pause_inputs.face_inputs(), vanilla_inputs.face_inputs());
    assert_eq!(pause_inputs.stick_inputs(), vanilla_inputs.stick_inputs());
    assert_eq!(pause_inputs.dpad_inputs(), pause_inputs.dpad_inputs());

    assert_eq!(pause_inputs.inputs(), vanilla_inputs.inputs());
    let durations: Vec<u32> = pause_inputs.face_inputs().iter().map(|f| f.frame_duration()).collect();
    assert_eq!(durations, vec![150, 20, 30]);
}

fn states(inputs: &[Input]) -> Vec<(Vec<FaceButton>, i8, i8, DPadButton, u32)> {
    inputs
        .iter()
        .map(|i| (i.face_buttons().to_vec(), i.stick_x(), i.stick_y(), i.dpad_button(), i.frame_duration()))
        .collect()
}

#[test]
fn timeline_has_an_entry_for_every_change() {
    let data = region(
        &[[0x01, 10], [0x05, 20]],
        &[[0x77, 15], [0x07, 15]],
        &[[0x00, 20], [0x10, 10]],
    );
    let timeline = InputData::new(&data).unwrap().inputs();
    assert_eq!(
        states(&timeline),
        vec![
            (vec![Accelerator], 0, 0, Neutral, 10),
            (vec![Accelerator, Item], 0, 0, Neutral, 5),
            (vec![Accelerator, Item], -7, 0, Neutral, 5),
            (vec![Accelerator, Item], -7, 0, Up, 10),
        ]
    );
    let frames: u32 = timeline.iter().map(|i| i.frame_duration()).sum();
    assert_eq!(frames, 30);
    for pair in timeline.windows(2) {
        let same = pair[0].face_buttons() == pair[1].face_buttons()
            && pair[0].stick_x() == pair[1].stick_x()
            && pair[0].stick_y() == pair[1].stick_y()
            && pair[0].dpad_button() == pair[1].dpad_button();
        assert!(!same);
    }
}

#[test]
fn timeline_entries_hold_the_states_of_their_frames() {
    // streams that change at different frames, one of them over early, and
    // among them a run of no frames
    let face: Vec<FaceInput> = [[0x01u8, 7], [0x03, 0], [0x0B, 9], [0x04, 255], [0x00, 1]]
        .iter()
        .map(|r| FaceInput::try_from(r).unwrap())
        .collect();
    let stick: Vec<StickInput> = [[0x77u8, 3], [0x07, 200], [0xE0, 40]]
        .iter()
        .map(|r| StickInput::try_from(r).unwrap())
        .collect();
    let dpad: Vec<DPadInput> = [[0x00u8, 100], [0x31, 44], [0x20, 5]]
        .iter()
        .map(|r| DPadInput::try_from(r).unwrap())
        .collect();
    let timeline = merge_timeline(&face, &stick, &dpad);

    // frame by frame: what each stream tells, a stream that is over being at rest
    let mut face_frames = Vec::new();
    for run in &face {
        for _ in 0..run.frame_duration() {
            face_frames.push(run.buttons().clone());
        }
    }
    let mut stick_frames = Vec::new();
    for run in &stick {
        for _ in 0..run.frame_duration() {
            stick_frames.push((run.x(), run.y()));
        }
    }
    let mut dpad_frames = Vec::new();
    for run in &dpad {
        for _ in 0..run.frame_duration() {
            dpad_frames.push(run.button());
        }
    }
    assert_eq!((face_frames.len(), stick_frames.len(), dpad_frames.len()), (272, 243, 405));

    let mut t = 0;
    for entry in &timeline {
        for _ in 0..entry.frame_duration() {
            assert_eq!(entry.face_buttons(), face_frames.get(t).cloned().unwrap_or_default(), "frame {}", t);
            assert_eq!(
                (entry.stick_x(), entry.stick_y()),
                stick_frames.get(t).copied().unwrap_or((0, 0)),
                "frame {}",
                t
            );
            assert_eq!(entry.dpad_button(), dpad_frames.get(t).copied().unwrap_or(Neutral), "frame {}", t);
            t += 1;
        }
    }
    assert_eq!(t, 405);
    // frame 10 lies in the third run of the face buttons, the second of the
    // stick and the first of the directional pad
    let at_ten = timeline.iter().scan(0, |end, e| {
        *end += e.frame_duration();
        Some((*end, e))
    });
    let entry = at_ten.filter(|(end, _)| *end > 10).map(|(_, e)| e).next().unwrap();
    assert_eq!(entry.face_buttons(), [Accelerator, Brake]);
    assert_eq!((entry.stick_x(), entry.stick_y(), entry.dpad_button()), (-7, 0, Neutral));
}

#[test]
fn timeline_lasts_as_long_as_the_longest_stream() {
    // the streams of no race: the face buttons run out first
    let face = [FaceInput::try_from(&[0x01, 4]).unwrap()];
    let stick = [StickInput::try_from(&[0x88, 6]).unwrap(), StickInput::try_from(&[0x77, 3]).unwrap()];
    let dpad = [DPadInput::try_from(&[0x20, 5]).unwrap()];
    let timeline = merge_timeline(&face, &stick, &dpad);
    assert_eq!(
        states(&timeline),
        vec![
            (vec![Accelerator], 1, 1, Down, 4),
            (vec![], 1, 1, Down, 1),
            (vec![], 1, 1, Neutral, 1),
            (vec![], 0, 0, Neutral, 3),
        ]
    );
    let frames: u32 = timeline.iter().map(|i| i.frame_duration()).sum();
    assert_eq!(frames, 9);
}

#[test]
fn timeline_keeps_runs_of_no_frames() {
    let face = [FaceInput::try_from(&[0x01, 0]).unwrap(), FaceInput::try_from(&[0x02, 2]).unwrap()];
    let timeline = merge_timeline(&face, &[], &[]);
    assert_eq!(
        states(&timeline),
        vec![
            (vec![FaceButton::Accelerator], 0, 0, DPadButton::Neutral, 0),
            (vec![FaceButton::Brake], 0, 0, DPadButton::Neutral, 2),
        ]
    );
}

#[test]
fn timeline_entries_compare_and_copy() {
    let a = Input::new(vec![FaceButton::Item], -3, 4, DPadButton::Left, 12);
    let b = a.clone();
    assert!(a == b);
    assert_eq!(b.face_buttons(), &[FaceButton::Item]);
    assert_eq!((b.stick_x(), b.stick_y(), b.dpad_button(), b.frame_duration()), (-3, 4, DPadButton::Left, 12));
    assert!(a != Input::new(vec![FaceButton::Item], -3, 4, DPadButton::Left, 13));
    assert!(a != Input::new(vec![], -3, 4, DPadButton::Left, 12));
    assert!(a != Input::new(vec![FaceButton::Item], -3, 4, DPadButton::Right, 12));
}

#[test]
fn timeline_is_gone_through_entry_by_entry() {
    let data = region(
        &[[0x01, 10], [0x05, 20]],
        &[[0x77, 15], [0x07, 15]],
        &[[0x00, 20], [0x10, 10]],
    );
    let inputs = InputData::new(&data).unwrap();
    let whole = inputs.inputs();
    let mut place = TimelinePlace::start();
    let mut kept = place;
    let mut seen = Vec::new();
    while let Some(input) = inputs.next_input(&mut place) {
        if seen.len() == 1 {
            kept = place;
        }
        seen.push(input);
    }
    assert_eq!(seen, whole);
    // at the end nothing comes, and the place stays
    let end = place;
    assert!(inputs.next_input(&mut place).is_none());
    assert_eq!(place, end);
    // from a place that was kept the timeline goes on as before
    let mut again = Vec::new();
    while let Some(input) = inputs.next_input(&mut kept) {
        again.push(input);
    }
    assert_eq!(again, whole[2..].to_vec());
}

#[test]
fn timeline_from_a_place_in_the_middle_of_a_run() {
    let face = [FaceInput::try_from(&[0x01, 10]).unwrap()];
    let stick = [StickInput::try_from(&[0x77, 10]).unwrap()];
    let mut place = TimelinePlace { face_idx: 0, face_offset: 4, stick_idx: 0, stick_offset: 7, dpad_idx: 0, dpad_offset: 0 };
    let first = next_input(&face, &stick, &[], &mut place).unwrap();
    assert_eq!(first.frame_duration(), 3);
    assert_eq!(place, TimelinePlace { face_idx: 0, face_offset: 7, stick_idx: 1, stick_offset: 0, dpad_idx: 0, dpad_offset: 0 });
    let second = next_input(&face, &stick, &[], &mut place).unwrap();
    assert_eq!((second.frame_duration(), second.stick_x()), (3, 0));
    assert!(next_input(&face, &stick, &[], &mut place).is_none());
    // a place behind the streams, or behind the end of a run
    let mut place = TimelinePlace { face_idx: 9, face_offset: 1, stick_idx: 0, stick_offset: 99, dpad_idx: 2, dpad_offset: 0 };
    let only = next_input(&face, &stick, &[], &mut place).unwrap();
    assert_eq!((only.face_buttons().len(), only.frame_duration()), (0, 0));
    assert!(next_input(&face, &stick, &[], &mut place).is_none());
}
