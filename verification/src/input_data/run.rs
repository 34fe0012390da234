//! Run-length streams: what the three input streams of a ghost have in common.
//!
//! A stream is a sequence of runs, each a state of the controller and the
//! number of frames for which it is held. A state that is held for longer than
//! one record can tell is written as several records in a row; merging them
//! gives the runs as they were played.

use vstd::prelude::*;

verus! {

/// A state and the number of frames for which it is held.
pub struct Run<S> {
    pub state: S,
    pub frames: nat,
}

/// The number of frames that a stream lasts.
pub open spec fn total_frames<S>(runs: Seq<Run<S>>) -> nat
    decreases runs.len(),
{
    if runs.len() == 0 {
        0
    } else {
        total_frames(runs.drop_last()) + runs.last().frames
    }
}

/// `runs` with every row of neighbours in the same state made one run, which
/// lasts as long as all of them together.
pub open spec fn merge_runs<S>(runs: Seq<Run<S>>) -> Seq<Run<S>>
    decreases runs.len(),
{
    if runs.len() == 0 {
        Seq::empty()
    } else {
        let head = merge_runs(runs.drop_last());
        let next = runs.last();
        if head.len() > 0 && head.last().state == next.state {
            head.update(
                head.len() - 1,
                Run { state: next.state, frames: head.last().frames + next.frames },
            )
        } else {
            head.push(next)
        }
    }
}

/// No two neighbours are in the same state.
pub open spec fn no_equal_neighbours<S>(runs: Seq<Run<S>>) -> bool {
    forall|i: int| 0 <= i < runs.len() - 1 ==> (#[trigger] runs[i]).state != runs[i + 1].state
}

/// A stream that gains one run lasts that many frames longer.
pub proof fn lemma_total_frames_push<S>(runs: Seq<Run<S>>, next: Run<S>)
    ensures
        total_frames(runs.push(next)) == total_frames(runs) + next.frames,
{
    assert(runs.push(next).drop_last() =~= runs);
}

/// A stream whose last run is made longer lasts that many frames longer.
pub proof fn lemma_total_frames_extend_last<S>(runs: Seq<Run<S>>, more: nat)
    requires
        runs.len() > 0,
    ensures
        total_frames(
            runs.update(
                runs.len() - 1,
                Run { state: runs.last().state, frames: runs.last().frames + more },
            ),
        ) == total_frames(runs) + more,
{
    let longer = runs.update(
        runs.len() - 1,
        Run { state: runs.last().state, frames: runs.last().frames + more },
    );
    assert(longer.drop_last() =~= runs.drop_last());
}

/// Merging neither adds nor loses a frame, never makes a stream longer in
/// runs, leaves no two neighbours in the same state, and ends in the state in
/// which the stream ends.
pub proof fn lemma_merge_runs<S>(runs: Seq<Run<S>>)
    ensures
        total_frames(merge_runs(runs)) == total_frames(runs),
        merge_runs(runs).len() <= runs.len(),
        runs.len() > 0 ==> merge_runs(runs).len() > 0 && merge_runs(runs).last().state
            == runs.last().state,
        no_equal_neighbours(merge_runs(runs)),
    decreases runs.len(),
{
    if runs.len() > 0 {
        let head = merge_runs(runs.drop_last());
        let next = runs.last();
        lemma_merge_runs(runs.drop_last());
        if head.len() > 0 && head.last().state == next.state {
            lemma_total_frames_extend_last(head, next.frames);
            let merged = merge_runs(runs);
            assert forall|i: int| 0 <= i < merged.len() - 1 implies (#[trigger] merged[i]).state
                != merged[i + 1].state by {
                assert(merged[i] == head[i]);
                assert(merged[i + 1].state == head[i + 1].state);
            }
        } else {
            lemma_total_frames_push(head, next);
            let merged = merge_runs(runs);
            assert forall|i: int| 0 <= i < merged.len() - 1 implies (#[trigger] merged[i]).state
                != merged[i + 1].state by {
                if i < head.len() - 1 {
                    assert(merged[i] == head[i]);
                    assert(merged[i + 1] == head[i + 1]);
                }
            }
        }
    }
}

/// A stream in which no two neighbours are in the same state is its own
/// merged form.
pub proof fn lemma_merge_runs_fixed<S>(runs: Seq<Run<S>>)
    requires
        no_equal_neighbours(runs),
    ensures
        merge_runs(runs) == runs,
    decreases runs.len(),
{
    if runs.len() > 0 {
        let front = runs.drop_last();
        assert forall|i: int| 0 <= i < front.len() - 1 implies (#[trigger] front[i]).state
            != front[i + 1].state by {
            assert(front[i] == runs[i]);
            assert(front[i + 1] == runs[i + 1]);
        }
        lemma_merge_runs_fixed(front);
        if front.len() > 0 {
            assert(runs[front.len() - 1].state != runs[front.len() - 1 + 1].state);
        }
        assert(front.push(runs.last()) =~= runs);
    }
}


/// Two streams played one after the other last as long as both together.
pub proof fn lemma_total_frames_concat<S>(first: Seq<Run<S>>, second: Seq<Run<S>>)
    ensures
        total_frames(first + second) == total_frames(first) + total_frames(second),
    decreases second.len(),
{
    if second.len() == 0 {
        assert(first + second =~= first);
    } else {
        lemma_total_frames_concat(first, second.drop_last());
        assert((first + second).drop_last() =~= first + second.drop_last());
    }
}

/// The frames that a stream still lasts from the run at `idx` on, of which
/// `used` frames are over.
pub open spec fn frames_ahead<S>(runs: Seq<Run<S>>, idx: int, used: nat) -> nat {
    if 0 <= idx < runs.len() {
        let left = if used <= runs[idx].frames {
            (runs[idx].frames - used) as nat
        } else {
            0
        };
        left + total_frames(runs.subrange(idx + 1, runs.len() as int))
    } else {
        0
    }
}

/// From its start a stream still lasts all its frames.
pub proof fn lemma_frames_ahead_start<S>(runs: Seq<Run<S>>)
    ensures
        frames_ahead(runs, 0, 0) == total_frames(runs),
{
    if runs.len() > 0 {
        let first = runs.subrange(0, 1);
        let rest = runs.subrange(1, runs.len() as int);
        assert(first + rest =~= runs);
        lemma_total_frames_concat(first, rest);
        assert(first.drop_last() =~= Seq::<Run<S>>::empty());
        assert(total_frames(first) == runs[0].frames) by {
            reveal_with_fuel(total_frames, 2);
        }
    }
}

/// From the start of the run at `idx` a stream lasts the frames of that run
/// and those of the runs behind it.
pub proof fn lemma_frames_ahead_next<S>(runs: Seq<Run<S>>, idx: int)
    requires
        0 <= idx < runs.len(),
    ensures
        total_frames(runs.subrange(idx, runs.len() as int)) == frames_ahead(runs, idx, 0),
{
    let tail = runs.subrange(idx, runs.len() as int);
    lemma_frames_ahead_start(tail);
    assert(tail.subrange(1, tail.len() as int) =~= runs.subrange(idx + 1, runs.len() as int));
}

} // verus!
