//! The streams and the timeline frame by frame.
//!
//! A list of runs tells the state of each frame: the state of the run that
//! covers it. The timeline tells of each frame what the three streams tell of
//! it: an entry of the timeline holds, for each of its frames, the states of
//! the runs of the three streams that cover that frame.

use vstd::prelude::*;
use crate::input_data::dpad_input::DPadButton;
use crate::input_data::face_input::FaceButton;
use crate::input_data::input::InputState;
use crate::input_data::run::Run;
use crate::input_data::run::frames_ahead;
use crate::input_data::run::lemma_frames_ahead_next;
use crate::input_data::run::lemma_frames_ahead_start;
use crate::input_data::run::lemma_total_frames_concat;
use crate::input_data::run::total_frames;
use crate::input_data::timeline::left_of_run;
use crate::input_data::timeline::place_after;
use crate::input_data::timeline::runs_ahead;
use crate::input_data::timeline::sooner;
use crate::input_data::timeline::state_at;
use crate::input_data::timeline::timeline;
use crate::input_data::timeline::timeline_from;

verus! {

/// The state of the frame that comes `t` frames after the place where `used`
/// frames of the run at `idx` are over, or `None` where the runs end before
/// that frame.
pub open spec fn state_in<S>(runs: Seq<Run<S>>, idx: int, used: nat, t: nat) -> Option<S>
    decreases runs_ahead(runs, idx),
{
    if 0 <= idx < runs.len() {
        let left = left_of_run(runs, idx, used)->Some_0;
        if t < left {
            Some(runs[idx].state)
        } else {
            state_in(runs, idx + 1, 0, (t - left) as nat)
        }
    } else {
        None
    }
}

/// The state of frame `t` of a list of runs, the first frame being frame 0,
/// or `None` where the runs last no more than `t` frames.
pub open spec fn state_of_frame<S>(runs: Seq<Run<S>>, t: nat) -> Option<S> {
    state_in(runs, 0, 0, t)
}

/// The state of the whole controller in a frame of which the three streams
/// tell `face`, `stick` and `dpad`. A stream that has run out counts as at
/// rest; where all three have run out there is no such frame.
pub open spec fn joined_state(
    face: Option<Seq<FaceButton>>,
    stick: Option<(i8, i8)>,
    dpad: Option<DPadButton>,
) -> Option<InputState> {
    if face is None && stick is None && dpad is None {
        None
    } else {
        Some(
            InputState {
                face_buttons: match face {
                    Some(buttons) => buttons,
                    None => Seq::empty(),
                },
                stick_x: match stick {
                    Some(axes) => axes.0,
                    None => 0,
                },
                stick_y: match stick {
                    Some(axes) => axes.1,
                    None => 0,
                },
                dpad_button: match dpad {
                    Some(button) => button,
                    None => DPadButton::Neutral,
                },
            },
        )
    }
}

/// A list of runs has a state in exactly the frames that it lasts.
pub proof fn lemma_state_in_while_it_lasts<S>(runs: Seq<Run<S>>, idx: int, used: nat, t: nat)
    ensures
        state_in(runs, idx, used, t) is Some <==> t < frames_ahead(runs, idx, used),
    decreases runs_ahead(runs, idx),
{
    if 0 <= idx < runs.len() {
        let left = left_of_run(runs, idx, used)->Some_0;
        if t >= left {
            lemma_state_in_while_it_lasts(runs, idx + 1, 0, (t - left) as nat);
            if idx + 1 < runs.len() {
                lemma_frames_ahead_next(runs, idx + 1);
            } else {
                assert(runs.subrange(idx + 1, runs.len() as int) =~= Seq::<Run<S>>::empty());
            }
        }
    }
}

/// Frame `k` of the run at `idx` is in the state of that run: it is the frame
/// that comes `k` frames after all the frames of the runs before.
pub proof fn lemma_state_of_covering_run<S>(runs: Seq<Run<S>>, idx: int, k: nat)
    requires
        0 <= idx < runs.len(),
        k < runs[idx].frames,
    ensures
        state_of_frame(runs, total_frames(runs.take(idx)) + k) == Some(runs[idx].state),
{
    lemma_state_from_run(runs, 0, idx, k);
    assert(runs.subrange(0, idx) =~= runs.take(idx));
}

proof fn lemma_state_from_run<S>(runs: Seq<Run<S>>, from: int, idx: int, k: nat)
    requires
        0 <= from <= idx < runs.len(),
        k < runs[idx].frames,
    ensures
        state_in(runs, from, 0, total_frames(runs.subrange(from, idx)) + k) == Some(
            runs[idx].state,
        ),
    decreases idx - from,
{
    if from == idx {
        assert(runs.subrange(from, idx) =~= Seq::<Run<S>>::empty());
    } else {
        let before = runs.subrange(from, idx);
        let first = runs.subrange(from, from + 1);
        let rest = runs.subrange(from + 1, idx);
        assert(first + rest =~= before);
        lemma_total_frames_concat(first, rest);
        assert(first.drop_last() =~= Seq::<Run<S>>::empty());
        assert(total_frames(first) == runs[from].frames) by {
            reveal_with_fuel(total_frames, 2);
        }
        lemma_state_from_run(runs, from + 1, idx, k);
    }
}

/// Behind other runs a list of runs tells of its frames what it tells alone.
proof fn lemma_state_in_behind<S>(first: Seq<Run<S>>, runs: Seq<Run<S>>, idx: int, used: nat, t: nat)
    requires
        0 <= idx,
    ensures
        state_in(first + runs, first.len() + idx, used, t) == state_in(runs, idx, used, t),
    decreases runs_ahead(runs, idx),
{
    let all = first + runs;
    if idx < runs.len() {
        assert(all[first.len() + idx] == runs[idx]);
        let left = left_of_run(runs, idx, used)->Some_0;
        if t >= left {
            lemma_state_in_behind(first, runs, idx + 1, 0, (t - left) as nat);
        }
    }
}

/// A stream that moves on by no more frames than are left of its run at hand
/// tells of the frames behind them what it told before.
proof fn lemma_state_in_step<S>(runs: Seq<Run<S>>, idx: int, used: nat, step: nat, t: nat)
    requires
        0 <= idx < runs.len() ==> step <= left_of_run(runs, idx, used)->Some_0,
        t >= step,
    ensures
        ({
            let next = place_after(runs, idx, used, step);
            state_in(runs, next.0, next.1, (t - step) as nat) == state_in(runs, idx, used, t)
        }),
{
    if 0 <= idx < runs.len() {
        let next = place_after(runs, idx, used, step);
        if next.0 == idx {
            reveal_with_fuel(state_in, 2);
        }
    }
}

/// From any place on, the timeline tells of each frame what the three
/// streams tell of it.
pub proof fn lemma_timeline_from_frames(
    face: Seq<Run<Seq<FaceButton>>>,
    stick: Seq<Run<(i8, i8)>>,
    dpad: Seq<Run<DPadButton>>,
    face_idx: int,
    face_used: nat,
    stick_idx: int,
    stick_used: nat,
    dpad_idx: int,
    dpad_used: nat,
    t: nat,
)
    ensures
        state_of_frame(
            timeline_from(
                face,
                stick,
                dpad,
                face_idx,
                face_used,
                stick_idx,
                stick_used,
                dpad_idx,
                dpad_used,
            ),
            t,
        ) == joined_state(
            state_in(face, face_idx, face_used, t),
            state_in(stick, stick_idx, stick_used, t),
            state_in(dpad, dpad_idx, dpad_used, t),
        ),
    decreases
            runs_ahead(face, face_idx) + runs_ahead(stick, stick_idx) + runs_ahead(dpad, dpad_idx),
{
    reveal(timeline_from);
    let whole = timeline_from(
        face,
        stick,
        dpad,
        face_idx,
        face_used,
        stick_idx,
        stick_used,
        dpad_idx,
        dpad_used,
    );
    match sooner(
        left_of_run(face, face_idx, face_used),
        sooner(left_of_run(stick, stick_idx, stick_used), left_of_run(dpad, dpad_idx, dpad_used)),
    ) {
        None => {
            assert(whole.len() == 0);
        },
        Some(step) => {
            let entry = Run {
                state: state_at(face, stick, dpad, face_idx, stick_idx, dpad_idx),
                frames: step,
            };
            let face_next = place_after(face, face_idx, face_used, step);
            let stick_next = place_after(stick, stick_idx, stick_used, step);
            let dpad_next = place_after(dpad, dpad_idx, dpad_used, step);
            let rest = timeline_from(
                face,
                stick,
                dpad,
                face_next.0,
                face_next.1,
                stick_next.0,
                stick_next.1,
                dpad_next.0,
                dpad_next.1,
            );
            assert(whole == seq![entry] + rest);
            assert(whole[0] == entry);
            if t >= step {
                let later = (t - step) as nat;
                lemma_state_in_behind(seq![entry], rest, 0, 0, later);
                lemma_timeline_from_frames(
                    face,
                    stick,
                    dpad,
                    face_next.0,
                    face_next.1,
                    stick_next.0,
                    stick_next.1,
                    dpad_next.0,
                    dpad_next.1,
                    later,
                );
                lemma_state_in_step(face, face_idx, face_used, step, t);
                lemma_state_in_step(stick, stick_idx, stick_used, step, t);
                lemma_state_in_step(dpad, dpad_idx, dpad_used, step, t);
            }
        },
    }
}

/// Each entry of the timeline holds, in each of its frames, the states of
/// the runs of the three streams that cover that frame: a frame of the
/// timeline is in the state that the face buttons, the stick and the
/// directional pad are in at that frame, a stream that is over being at rest.
/// Behind the last frame of the longest stream the timeline has no frame.
pub proof fn lemma_timeline_frames(
    face: Seq<Run<Seq<FaceButton>>>,
    stick: Seq<Run<(i8, i8)>>,
    dpad: Seq<Run<DPadButton>>,
    t: nat,
)
    ensures
        state_of_frame(timeline(face, stick, dpad), t) == joined_state(
            state_of_frame(face, t),
            state_of_frame(stick, t),
            state_of_frame(dpad, t),
        ),
{
    lemma_timeline_from_frames(face, stick, dpad, 0, 0, 0, 0, 0, 0, t);
}

/// A list of runs has a state in frame `t` exactly where it lasts longer than
/// `t` frames.
pub proof fn lemma_state_of_frame_while_it_lasts<S>(runs: Seq<Run<S>>, t: nat)
    ensures
        state_of_frame(runs, t) is Some <==> t < total_frames(runs),
{
    lemma_state_in_while_it_lasts(runs, 0, 0, t);
    lemma_frames_ahead_start(runs);
}

} // verus!
