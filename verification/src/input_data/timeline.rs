//! The timeline: the three input streams laid over one another.
//!
//! Each stream changes its state at its own times. The timeline has one entry
//! for each stretch of frames in which no stream changes: it holds the state
//! of all three and the length of the stretch. A stream that has run out
//! counts as at rest: no button, the stick in the middle, no direction.

use vstd::prelude::*;
use crate::input_data::dpad_input::DPadButton;
use crate::input_data::dpad_input::DPadInput;
use crate::input_data::face_input::FaceButton;
use crate::input_data::face_input::FaceInput;
use crate::input_data::face_input::copy_buttons;
use crate::input_data::input::Input;
use crate::input_data::input::InputState;
use crate::input_data::run::Run;
use crate::input_data::run::frames_ahead;
use crate::input_data::run::lemma_frames_ahead_next;
use crate::input_data::run::lemma_frames_ahead_start;
use crate::input_data::run::lemma_total_frames_concat;
use crate::input_data::run::no_equal_neighbours;
use crate::input_data::run::total_frames;
use crate::input_data::stick_input::StickInput;

verus! {

/// The runs that a list of records stands for.
pub open spec fn runs_of<T: View>(records: Seq<T>) -> Seq<T::V> {
    records.map_values(|record: T| record@)
}

/// The frames that are left of the run at `idx` once `used` of them are
/// over, or `None` where the stream has run out.
pub open spec fn left_of_run<S>(runs: Seq<Run<S>>, idx: int, used: nat) -> Option<nat> {
    if 0 <= idx < runs.len() {
        if used <= runs[idx].frames {
            Some((runs[idx].frames - used) as nat)
        } else {
            Some(0)
        }
    } else {
        None
    }
}

/// The smaller of two numbers of frames, where `None` stands for no bound.
pub open spec fn sooner(a: Option<nat>, b: Option<nat>) -> Option<nat> {
    match (a, b) {
        (Some(x), Some(y)) => Some(if x <= y { x } else { y }),
        (Some(x), None) => Some(x),
        (None, y) => y,
    }
}

/// The place in a stream after `step` more frames: the next run where the
/// run at `idx` is over by then, else the same run with more of it used.
pub open spec fn place_after<S>(runs: Seq<Run<S>>, idx: int, used: nat, step: nat) -> (int, nat) {
    if 0 <= idx < runs.len() {
        if used + step >= runs[idx].frames {
            (idx + 1, 0)
        } else {
            (idx, used + step)
        }
    } else {
        (idx, used)
    }
}

/// The state of the whole controller where the streams stand at the runs
/// `face_idx`, `stick_idx` and `dpad_idx`.
pub open spec fn state_at(
    face: Seq<Run<Seq<FaceButton>>>,
    stick: Seq<Run<(i8, i8)>>,
    dpad: Seq<Run<DPadButton>>,
    face_idx: int,
    stick_idx: int,
    dpad_idx: int,
) -> InputState {
    InputState {
        face_buttons: if 0 <= face_idx < face.len() {
            face[face_idx].state
        } else {
            Seq::empty()
        },
        stick_x: if 0 <= stick_idx < stick.len() {
            stick[stick_idx].state.0
        } else {
            0
        },
        stick_y: if 0 <= stick_idx < stick.len() {
            stick[stick_idx].state.1
        } else {
            0
        },
        dpad_button: if 0 <= dpad_idx < dpad.len() {
            dpad[dpad_idx].state
        } else {
            DPadButton::Neutral
        },
    }
}

/// The number of runs that a stream still has from `idx` on.
pub open spec fn runs_ahead<S>(runs: Seq<Run<S>>, idx: int) -> nat {
    if 0 <= idx < runs.len() {
        (runs.len() - idx) as nat
    } else {
        0
    }
}

/// The timeline from the place where the streams stand at the runs
/// `face_idx`, `stick_idx` and `dpad_idx`, of which `face_used`, `stick_used`
/// and `dpad_used` frames are over.
///
/// The next entry lasts until the first of the streams that have not run out
/// changes. It ends when all of them have run out.
#[verifier::opaque]
pub open spec fn timeline_from(
    face: Seq<Run<Seq<FaceButton>>>,
    stick: Seq<Run<(i8, i8)>>,
    dpad: Seq<Run<DPadButton>>,
    face_idx: int,
    face_used: nat,
    stick_idx: int,
    stick_used: nat,
    dpad_idx: int,
    dpad_used: nat,
) -> Seq<Run<InputState>>
    decreases
            runs_ahead(face, face_idx) + runs_ahead(stick, stick_idx) + runs_ahead(dpad, dpad_idx),
{
    match sooner(
        left_of_run(face, face_idx, face_used),
        sooner(left_of_run(stick, stick_idx, stick_used), left_of_run(dpad, dpad_idx, dpad_used)),
    ) {
        None => Seq::empty(),
        Some(step) => {
            let entry = Run {
                state: state_at(face, stick, dpad, face_idx, stick_idx, dpad_idx),
                frames: step,
            };
            let face_next = place_after(face, face_idx, face_used, step);
            let stick_next = place_after(stick, stick_idx, stick_used, step);
            let dpad_next = place_after(dpad, dpad_idx, dpad_used, step);
            seq![entry] + timeline_from(
                face,
                stick,
                dpad,
                face_next.0,
                face_next.1,
                stick_next.0,
                stick_next.1,
                dpad_next.0,
                dpad_next.1,
            )
        },
    }
}

/// The timeline of three streams.
pub open spec fn timeline(
    face: Seq<Run<Seq<FaceButton>>>,
    stick: Seq<Run<(i8, i8)>>,
    dpad: Seq<Run<DPadButton>>,
) -> Seq<Run<InputState>> {
    timeline_from(face, stick, dpad, 0, 0, 0, 0, 0, 0)
}


/// The largest of three numbers of frames.
pub open spec fn longest(a: nat, b: nat, c: nat) -> nat {
    if a >= b && a >= c {
        a
    } else if b >= c {
        b
    } else {
        c
    }
}

/// From any place the timeline lasts as long as the stream that still lasts
/// longest.
pub proof fn lemma_timeline_from_total(
    face: Seq<Run<Seq<FaceButton>>>,
    stick: Seq<Run<(i8, i8)>>,
    dpad: Seq<Run<DPadButton>>,
    face_idx: int,
    face_used: nat,
    stick_idx: int,
    stick_used: nat,
    dpad_idx: int,
    dpad_used: nat,
)
    ensures
        total_frames(
            timeline_from(
                face,
                stick,
                dpad,
                face_idx,
                face_used,
                stick_idx,
                stick_used,
                dpad_idx,
                dpad_used,
            ),
        ) == longest(
            frames_ahead(face, face_idx, face_used),
            frames_ahead(stick, stick_idx, stick_used),
            frames_ahead(dpad, dpad_idx, dpad_used),
        ),
    decreases
            runs_ahead(face, face_idx) + runs_ahead(stick, stick_idx) + runs_ahead(dpad, dpad_idx),
{
    reveal(timeline_from);
    match sooner(
        left_of_run(face, face_idx, face_used),
        sooner(left_of_run(stick, stick_idx, stick_used), left_of_run(dpad, dpad_idx, dpad_used)),
    ) {
        None => {},
        Some(step) => {
            let entry = Run {
                state: state_at(face, stick, dpad, face_idx, stick_idx, dpad_idx),
                frames: step,
            };
            let face_next = place_after(face, face_idx, face_used, step);
            let stick_next = place_after(stick, stick_idx, stick_used, step);
            let dpad_next = place_after(dpad, dpad_idx, dpad_used, step);
            let rest = timeline_from(
                face,
                stick,
                dpad,
                face_next.0,
                face_next.1,
                stick_next.0,
                stick_next.1,
                dpad_next.0,
                dpad_next.1,
            );
            lemma_timeline_from_total(
                face,
                stick,
                dpad,
                face_next.0,
                face_next.1,
                stick_next.0,
                stick_next.1,
                dpad_next.0,
                dpad_next.1,
            );
            lemma_total_frames_concat(seq![entry], rest);
            assert(total_frames(seq![entry]) == step) by {
                reveal_with_fuel(total_frames, 2);
                assert(seq![entry].drop_last() =~= Seq::<Run<InputState>>::empty());
            }
            lemma_frames_ahead_step(face, face_idx, face_used, step);
            lemma_frames_ahead_step(stick, stick_idx, stick_used, step);
            lemma_frames_ahead_step(dpad, dpad_idx, dpad_used, step);
        },
    }
}

/// A stream that moves on by no more frames than are left of its run at hand
/// lasts that many frames less.
proof fn lemma_frames_ahead_step<S>(runs: Seq<Run<S>>, idx: int, used: nat, step: nat)
    requires
        0 <= idx < runs.len() ==> step <= left_of_run(runs, idx, used)->Some_0,
    ensures
        ({
            let next = place_after(runs, idx, used, step);
            if 0 <= idx < runs.len() {
                frames_ahead(runs, next.0, next.1) + step == frames_ahead(runs, idx, used)
            } else {
                frames_ahead(runs, next.0, next.1) == 0 && frames_ahead(runs, idx, used) == 0
            }
        }),
{
    if 0 <= idx < runs.len() {
        let next = place_after(runs, idx, used, step);
        if next.0 == idx + 1 {
            if idx + 1 < runs.len() {
                lemma_frames_ahead_next(runs, idx + 1);
            } else {
                assert(runs.subrange(idx + 1, runs.len() as int) =~= Seq::<Run<S>>::empty());
            }
        }
    }
}

/// The timeline lasts as long as the longest of the three streams.
pub proof fn lemma_timeline_total(
    face: Seq<Run<Seq<FaceButton>>>,
    stick: Seq<Run<(i8, i8)>>,
    dpad: Seq<Run<DPadButton>>,
)
    ensures
        total_frames(timeline(face, stick, dpad)) == longest(
            total_frames(face),
            total_frames(stick),
            total_frames(dpad),
        ),
{
    lemma_timeline_from_total(face, stick, dpad, 0, 0, 0, 0, 0, 0);
    lemma_frames_ahead_start(face);
    lemma_frames_ahead_start(stick);
    lemma_frames_ahead_start(dpad);
}

/// The smallest of three numbers of frames.
pub open spec fn shortest(a: nat, b: nat, c: nat) -> nat {
    if a <= b && a <= c {
        a
    } else if b <= c {
        b
    } else {
        c
    }
}

/// The timeline lasts as long as the shortest of the three streams exactly
/// where all three last equally long, as the streams of one race do.
pub proof fn lemma_timeline_total_of_race(
    face: Seq<Run<Seq<FaceButton>>>,
    stick: Seq<Run<(i8, i8)>>,
    dpad: Seq<Run<DPadButton>>,
)
    ensures
        total_frames(timeline(face, stick, dpad)) == shortest(
            total_frames(face),
            total_frames(stick),
            total_frames(dpad),
        ) <==> total_frames(face) == total_frames(stick) && total_frames(stick) == total_frames(
            dpad,
        ),
{
    lemma_timeline_total(face, stick, dpad);
}

/// Whether the streams stand in step at a place: from there all three still
/// last equally long.
pub open spec fn in_step(
    face: Seq<Run<Seq<FaceButton>>>,
    stick: Seq<Run<(i8, i8)>>,
    dpad: Seq<Run<DPadButton>>,
    face_idx: int,
    face_used: nat,
    stick_idx: int,
    stick_used: nat,
    dpad_idx: int,
    dpad_used: nat,
) -> bool {
    &&& 0 <= face_idx && 0 <= stick_idx && 0 <= dpad_idx
    &&& frames_ahead(face, face_idx, face_used) == frames_ahead(stick, stick_idx, stick_used)
    &&& frames_ahead(stick, stick_idx, stick_used) == frames_ahead(dpad, dpad_idx, dpad_used)
    &&& face_idx < face.len() ==> face_used <= face[face_idx].frames
    &&& stick_idx < stick.len() ==> stick_used <= stick[stick_idx].frames
    &&& dpad_idx < dpad.len() ==> dpad_used <= dpad[dpad_idx].frames
}

/// From a place where the streams stand in step, the timeline changes its
/// state from each entry to the next, and opens with the state at that place.
proof fn lemma_timeline_from_changes(
    face: Seq<Run<Seq<FaceButton>>>,
    stick: Seq<Run<(i8, i8)>>,
    dpad: Seq<Run<DPadButton>>,
    face_idx: int,
    face_used: nat,
    stick_idx: int,
    stick_used: nat,
    dpad_idx: int,
    dpad_used: nat,
)
    requires
        no_equal_neighbours(face),
        no_equal_neighbours(stick),
        no_equal_neighbours(dpad),
        in_step(
            face,
            stick,
            dpad,
            face_idx,
            face_used,
            stick_idx,
            stick_used,
            dpad_idx,
            dpad_used,
        ),
    ensures
        ({
            let entries = timeline_from(
                face,
                stick,
                dpad,
                face_idx,
                face_used,
                stick_idx,
                stick_used,
                dpad_idx,
                dpad_used,
            );
            &&& no_equal_neighbours(entries)
            &&& entries.len() > 0 ==> {
                &&& entries[0].state == state_at(face, stick, dpad, face_idx, stick_idx, dpad_idx)
                &&& face_idx < face.len() || stick_idx < stick.len() || dpad_idx < dpad.len()
            }
        }),
    decreases
            runs_ahead(face, face_idx) + runs_ahead(stick, stick_idx) + runs_ahead(dpad, dpad_idx),
{
    reveal(timeline_from);
    match sooner(
        left_of_run(face, face_idx, face_used),
        sooner(left_of_run(stick, stick_idx, stick_used), left_of_run(dpad, dpad_idx, dpad_used)),
    ) {
        None => {},
        Some(step) => {
            let entry = Run {
                state: state_at(face, stick, dpad, face_idx, stick_idx, dpad_idx),
                frames: step,
            };
            let face_next = place_after(face, face_idx, face_used, step);
            let stick_next = place_after(stick, stick_idx, stick_used, step);
            let dpad_next = place_after(dpad, dpad_idx, dpad_used, step);
            let rest = timeline_from(
                face,
                stick,
                dpad,
                face_next.0,
                face_next.1,
                stick_next.0,
                stick_next.1,
                dpad_next.0,
                dpad_next.1,
            );
            lemma_frames_ahead_step(face, face_idx, face_used, step);
            lemma_frames_ahead_step(stick, stick_idx, stick_used, step);
            lemma_frames_ahead_step(dpad, dpad_idx, dpad_used, step);
            lemma_timeline_from_changes(
                face,
                stick,
                dpad,
                face_next.0,
                face_next.1,
                stick_next.0,
                stick_next.1,
                dpad_next.0,
                dpad_next.1,
            );
            let entries = seq![entry] + rest;
            assert forall|i: int| 0 <= i < entries.len() - 1 implies (#[trigger] entries[i]).state
                != entries[i + 1].state by {
                if i == 0 {
                    assert(entries[1] == rest[0]);
                    // A stream that has not run out by the next entry has
                    // moved on to a run in another state. For if it stood
                    // still, it would last longer than the stream whose run
                    // ended first, which moved on or ran out.
                    let face_moved = face_idx < face.len() && face_next.0 == face_idx + 1;
                    let stick_moved = stick_idx < stick.len() && stick_next.0 == stick_idx + 1;
                    let dpad_moved = dpad_idx < dpad.len() && dpad_next.0 == dpad_idx + 1;
                    assert(face_moved || stick_moved || dpad_moved);
                    if face_moved && face_next.0 < face.len() {
                        assert(face[face_idx].state != face[face_idx + 1].state);
                    } else if stick_moved && stick_next.0 < stick.len() {
                        assert(stick[stick_idx].state != stick[stick_idx + 1].state);
                    } else if dpad_moved && dpad_next.0 < dpad.len() {
                        assert(dpad[dpad_idx].state != dpad[dpad_idx + 1].state);
                    } else {
                        // a stream ran out just now, so none lasts any longer
                        assert(frames_ahead(face, face_next.0, face_next.1) == 0);
                        assert(false);
                    }
                } else {
                    assert(entries[i] == rest[i - 1]);
                    assert(entries[i + 1] == rest[i - 1 + 1]);
                }
            }
        },
    }
}

/// Where the three streams last equally long and none holds two neighbours
/// in the same state, the timeline holds no two neighbours in the same
/// state either: it has an entry for every change and for nothing else.
pub proof fn lemma_timeline_changes(
    face: Seq<Run<Seq<FaceButton>>>,
    stick: Seq<Run<(i8, i8)>>,
    dpad: Seq<Run<DPadButton>>,
)
    requires
        total_frames(face) == total_frames(stick),
        total_frames(stick) == total_frames(dpad),
        no_equal_neighbours(face),
        no_equal_neighbours(stick),
        no_equal_neighbours(dpad),
    ensures
        no_equal_neighbours(timeline(face, stick, dpad)),
{
    lemma_frames_ahead_start(face);
    lemma_frames_ahead_start(stick);
    lemma_frames_ahead_start(dpad);
    lemma_timeline_from_changes(face, stick, dpad, 0, 0, 0, 0, 0, 0);
}

/// The timeline from a place where a stream has not run out is its first
/// entry and the timeline from the place after it.
proof fn lemma_timeline_from_unfold(
    face: Seq<Run<Seq<FaceButton>>>,
    stick: Seq<Run<(i8, i8)>>,
    dpad: Seq<Run<DPadButton>>,
    face_idx: int,
    face_used: nat,
    stick_idx: int,
    stick_used: nat,
    dpad_idx: int,
    dpad_used: nat,
    step: nat,
)
    requires
        sooner(
            left_of_run(face, face_idx, face_used),
            sooner(
                left_of_run(stick, stick_idx, stick_used),
                left_of_run(dpad, dpad_idx, dpad_used),
            ),
        ) == Some(step),
    ensures
        timeline_from(
            face,
            stick,
            dpad,
            face_idx,
            face_used,
            stick_idx,
            stick_used,
            dpad_idx,
            dpad_used,
        ) == seq![
            Run { state: state_at(face, stick, dpad, face_idx, stick_idx, dpad_idx), frames: step },
        ] + timeline_from(
            face,
            stick,
            dpad,
            place_after(face, face_idx, face_used, step).0,
            place_after(face, face_idx, face_used, step).1,
            place_after(stick, stick_idx, stick_used, step).0,
            place_after(stick, stick_idx, stick_used, step).1,
            place_after(dpad, dpad_idx, dpad_used, step).0,
            place_after(dpad, dpad_idx, dpad_used, step).1,
        ),
{
    reveal(timeline_from);
}

/// A place in the three streams: for each, the run at hand and the frames
/// of it that are over.
#[derive(Clone, Copy, Debug, PartialEq, Eq, Structural)]
pub struct TimelinePlace {
    pub face_idx: usize,
    pub face_offset: u32,
    pub stick_idx: usize,
    pub stick_offset: u32,
    pub dpad_idx: usize,
    pub dpad_offset: u32,
}

/// The timeline from a place on.
pub open spec fn timeline_at(
    face: Seq<Run<Seq<FaceButton>>>,
    stick: Seq<Run<(i8, i8)>>,
    dpad: Seq<Run<DPadButton>>,
    place: TimelinePlace,
) -> Seq<Run<InputState>> {
    timeline_from(
        face,
        stick,
        dpad,
        place.face_idx as int,
        place.face_offset as nat,
        place.stick_idx as int,
        place.stick_offset as nat,
        place.dpad_idx as int,
        place.dpad_offset as nat,
    )
}

/// The number of runs that the streams still have from a place on.
pub open spec fn runs_ahead_of(
    face: Seq<Run<Seq<FaceButton>>>,
    stick: Seq<Run<(i8, i8)>>,
    dpad: Seq<Run<DPadButton>>,
    place: TimelinePlace,
) -> nat {
    runs_ahead(face, place.face_idx as int) + runs_ahead(stick, place.stick_idx as int)
        + runs_ahead(dpad, place.dpad_idx as int)
}

fn sooner_of(a: Option<u32>, b: Option<u32>) -> (r: Option<u32>)
    ensures
        r == match (a, b) {
            (Some(x), Some(y)) => Some(if x <= y { x } else { y }),
            (Some(x), None) => Some(x),
            (None, y) => y,
        },
{
    match (a, b) {
        (Some(x), Some(y)) => Some(if x <= y { x } else { y }),
        (Some(x), None) => Some(x),
        (None, y) => y,
    }
}

/// What is left of a run of `frames` frames of which `used` are over.
fn left_of(frames: Option<u32>, used: u32) -> (r: Option<u32>)
    ensures
        r == match frames {
            Some(f) => Some(if used <= f { (f - used) as u32 } else { 0u32 }),
            None => None,
        },
{
    match frames {
        Some(f) => Some(if used <= f { f - used } else { 0 }),
        None => None,
    }
}

/// Where a stream stands after `step` more frames: at its next run where
/// the run at hand, of `frames` frames, is over by then. A stream that has
/// run out stays where it is.
fn moved_on(idx: usize, used: u32, step: u32, frames: Option<u32>) -> (r: (usize, u32))
    requires
        frames matches Some(f) ==> idx < usize::MAX && (used <= f ==> step <= f - used),
    ensures
        r == match frames {
            Some(f) => if used + step >= f {
                ((idx + 1) as usize, 0u32)
            } else {
                (idx, (used + step) as u32)
            },
            None => (idx, used),
        },
{
    match frames {
        Some(f) => {
            if used >= f || step >= f - used {
                (idx + 1, 0)
            } else {
                (idx, used + step)
            }
        },
        None => (idx, used),
    }
}

impl TimelinePlace {
    /// The place before the first frame.
    pub fn start() -> (r: Self)
        ensures
            r == (TimelinePlace {
                face_idx: 0,
                face_offset: 0,
                stick_idx: 0,
                stick_offset: 0,
                dpad_idx: 0,
                dpad_offset: 0,
            }),
    {
        TimelinePlace {
            face_idx: 0,
            face_offset: 0,
            stick_idx: 0,
            stick_offset: 0,
            dpad_idx: 0,
            dpad_offset: 0,
        }
    }
}

/// The next entry of the timeline from a place on, and the place behind it;
/// or nothing, where all streams have run out there.
///
/// The timeline can so be gone through entry by entry, from its start or
/// from any place that was kept, without laying out the whole of it.
pub fn next_input(
    face: &[FaceInput],
    stick: &[StickInput],
    dpad: &[DPadInput],
    place: &mut TimelinePlace,
) -> (r: Option<Input>)
    ensures
        match r {
            Some(input) => {
                &&& timeline_at(runs_of(face@), runs_of(stick@), runs_of(dpad@), *old(place))
                    == seq![input@] + timeline_at(
                    runs_of(face@),
                    runs_of(stick@),
                    runs_of(dpad@),
                    *final(place),
                )
                &&& runs_ahead_of(runs_of(face@), runs_of(stick@), runs_of(dpad@), *final(place))
                    < runs_ahead_of(runs_of(face@), runs_of(stick@), runs_of(dpad@), *old(place))
            },
            None => {
                &&& timeline_at(runs_of(face@), runs_of(stick@), runs_of(dpad@), *old(place))
                    == Seq::<Run<InputState>>::empty()
                &&& *final(place) == *old(place)
            },
        },
{
    let ghost face_runs = runs_of(face@);
    let ghost stick_runs = runs_of(stick@);
    let ghost dpad_runs = runs_of(dpad@);
    let face_idx = place.face_idx;
    let stick_idx = place.stick_idx;
    let dpad_idx = place.dpad_idx;

    // the frames of the run at hand in each stream
    let face_frames = if face_idx < face.len() {
        Some(face[face_idx].frame_duration())
    } else {
        None
    };
    let stick_frames = if stick_idx < stick.len() {
        Some(stick[stick_idx].frame_duration())
    } else {
        None
    };
    let dpad_frames = if dpad_idx < dpad.len() {
        Some(dpad[dpad_idx].frame_duration())
    } else {
        None
    };
    proof {
        assert(face_runs.len() == face@.len() && stick_runs.len() == stick@.len()
            && dpad_runs.len() == dpad@.len());
        if face_idx < face@.len() {
            assert(face_runs[face_idx as int] == face@[face_idx as int]@);
        }
        if stick_idx < stick@.len() {
            assert(stick_runs[stick_idx as int] == stick@[stick_idx as int]@);
        }
        if dpad_idx < dpad@.len() {
            assert(dpad_runs[dpad_idx as int] == dpad@[dpad_idx as int]@);
        }
    }

    // the frames until the next change
    let duration = match sooner_of(
        left_of(face_frames, place.face_offset),
        sooner_of(left_of(stick_frames, place.stick_offset), left_of(dpad_frames, place.dpad_offset)),
    ) {
        Some(duration) => duration,
        None => {
            proof {
                reveal(timeline_from);
            }
            return None;
        },
    };

    let combined = Input::new(
        if face_idx < face.len() {
            copy_buttons(face[face_idx].buttons())
        } else {
            Vec::new()
        },
        if stick_idx < stick.len() {
            stick[stick_idx].x()
        } else {
            0
        },
        if stick_idx < stick.len() {
            stick[stick_idx].y()
        } else {
            0
        },
        if dpad_idx < dpad.len() {
            dpad[dpad_idx].button()
        } else {
            DPadButton::Neutral
        },
        duration,
    );
    proof {
        lemma_timeline_from_unfold(
            face_runs,
            stick_runs,
            dpad_runs,
            face_idx as int,
            place.face_offset as nat,
            stick_idx as int,
            place.stick_offset as nat,
            dpad_idx as int,
            place.dpad_offset as nat,
            duration as nat,
        );
        let entry = Run {
            state: state_at(
                face_runs,
                stick_runs,
                dpad_runs,
                face_idx as int,
                stick_idx as int,
                dpad_idx as int,
            ),
            frames: duration as nat,
        };
        assert(combined@.state.face_buttons =~= entry.state.face_buttons);
        assert(combined@ == entry);
    }

    // move each stream on, to its next run where the one at hand is over
    let face_next = moved_on(face_idx, place.face_offset, duration, face_frames);
    let stick_next = moved_on(stick_idx, place.stick_offset, duration, stick_frames);
    let dpad_next = moved_on(dpad_idx, place.dpad_offset, duration, dpad_frames);
    proof {
        let face_place = place_after(
            face_runs,
            face_idx as int,
            place.face_offset as nat,
            duration as nat,
        );
        let stick_place = place_after(
            stick_runs,
            stick_idx as int,
            place.stick_offset as nat,
            duration as nat,
        );
        let dpad_place = place_after(
            dpad_runs,
            dpad_idx as int,
            place.dpad_offset as nat,
            duration as nat,
        );
        assert(face_next.0 == face_place.0 && face_next.1 == face_place.1);
        assert(stick_next.0 == stick_place.0 && stick_next.1 == stick_place.1);
        assert(dpad_next.0 == dpad_place.0 && dpad_next.1 == dpad_place.1);
    }
    place.face_idx = face_next.0;
    place.face_offset = face_next.1;
    place.stick_idx = stick_next.0;
    place.stick_offset = stick_next.1;
    place.dpad_idx = dpad_next.0;
    place.dpad_offset = dpad_next.1;
    Some(combined)
}

/// Lays the three streams over one another.
pub fn merge_timeline(face: &[FaceInput], stick: &[StickInput], dpad: &[DPadInput]) -> (r: Vec<
    Input,
>)
    ensures
        runs_of(r@) == timeline(runs_of(face@), runs_of(stick@), runs_of(dpad@)),
{
    let ghost face_runs = runs_of(face@);
    let ghost stick_runs = runs_of(stick@);
    let ghost dpad_runs = runs_of(dpad@);
    let mut result: Vec<Input> = Vec::new();
    let mut place = TimelinePlace::start();
    assert(runs_of(result@) =~= Seq::empty());

    // until all streams have run out
    loop
        invariant
            face_runs == runs_of(face@),
            stick_runs == runs_of(stick@),
            dpad_runs == runs_of(dpad@),
            timeline(face_runs, stick_runs, dpad_runs) == runs_of(result@) + timeline_at(
                face_runs,
                stick_runs,
                dpad_runs,
                place,
            ),
        decreases runs_ahead_of(face_runs, stick_runs, dpad_runs, place),
    {
        let ghost before = result@;
        let ghost here = timeline_at(face_runs, stick_runs, dpad_runs, place);
        match next_input(face, stick, dpad, &mut place) {
            Some(input) => {
                result.push(input);
                proof {
                    let rest = timeline_at(face_runs, stick_runs, dpad_runs, place);
                    assert(runs_of(result@) =~= runs_of(before).push(input@));
                    assert(runs_of(before) + (seq![input@] + rest) =~= runs_of(before).push(input@)
                        + rest);
                }
            },
            None => {
                proof {
                    assert(runs_of(result@) + here =~= runs_of(result@));
                }
                return result;
            },
        }
    }
}

} // verus!
