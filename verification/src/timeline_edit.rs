//! How inserting and deleting frames reshapes a branch's frames and events.
use vstd::prelude::*;

use crate::input::{TasInputFrame, neutral_frame};
use crate::replay::{ReplayEvent, ReplayEventModel, events_view};

verus! {

/// `frames` with `count` neutral frames inserted before frame `at`.
pub open spec fn frames_after_insert(frames: Seq<TasInputFrame>, at: int, count: nat) -> Seq<TasInputFrame> {
    frames.take(at) + Seq::new(count, |k: int| neutral_frame()) + frames.skip(at)
}

/// `frames` without the `count` frames from `start`.
pub open spec fn frames_after_delete(frames: Seq<TasInputFrame>, start: int, count: int) -> Seq<TasInputFrame> {
    frames.take(start) + frames.skip(start + count)
}

/// An event's boundary after `count` frames are inserted at `at`.
pub open spec fn shifted_for_insert(e: ReplayEventModel, at: u64, count: u64) -> ReplayEventModel {
    if e.frame() >= at {
        e.with_frame((e.frame() + count) as u64)
    } else {
        e
    }
}

/// Whether shifting every event at or after `at` by `count` stays representable.
pub open spec fn insert_shift_fits(events: Seq<ReplayEventModel>, at: u64, count: u64) -> bool {
    forall|k: int| 0 <= k < events.len() && (#[trigger] events[k]).frame() >= at ==> events[k].frame() + count <= u64::MAX
}

/// The events after `count` frames are inserted at `at`: later boundaries move back.
pub open spec fn events_after_insert(events: Seq<ReplayEventModel>, at: u64, count: u64) -> Seq<ReplayEventModel> {
    Seq::new(events.len(), |k: int| shifted_for_insert(events[k], at, count))
}

/// The events after the `count` frames from `start` are deleted: events strictly
/// inside the deleted run go, later ones move forward.
pub open spec fn events_after_delete(events: Seq<ReplayEventModel>, start: u64, count: u64) -> Seq<ReplayEventModel>
    decreases events.len(),
{
    if events.len() == 0 {
        Seq::empty()
    } else {
        let rest = events_after_delete(events.drop_last(), start, count);
        let e = events.last();
        if e.frame() <= start {
            rest.push(e)
        } else if e.frame() >= start + count {
            rest.push(e.with_frame((e.frame() - count) as u64))
        } else {
            rest
        }
    }
}

/// The cursor after the `count` frames from `start` are deleted.
pub open spec fn cursor_after_delete(cursor: u64, start: u64, count: u64) -> u64 {
    if cursor <= start {
        cursor
    } else if cursor >= start + count {
        (cursor - count) as u64
    } else {
        start
    }
}

/// Deleting the frames just inserted gives back the branch's frames and its
/// events, each at its old boundary.
pub proof fn law_delete_undoes_insert(frames: Seq<TasInputFrame>, events: Seq<ReplayEventModel>, at: u64, count: u64)
    requires
        at <= frames.len(),
        insert_shift_fits(events, at, count),
    ensures
        frames_after_delete(frames_after_insert(frames, at as int, count as nat), at as int, count as int) == frames,
        events_after_delete(events_after_insert(events, at, count), at, count) == events,
    decreases events.len(),
{
    assert(frames_after_delete(frames_after_insert(frames, at as int, count as nat), at as int, count as int) =~= frames);
    if events.len() > 0 {
        let rest = events.drop_last();
        assert forall|k: int| 0 <= k < rest.len() && (#[trigger] rest[k]).frame() >= at implies rest[k].frame() + count <= u64::MAX by {
            assert(events[k] == rest[k]);
        }
        law_delete_undoes_insert(frames, rest, at, count);
        let shifted = events_after_insert(events, at, count);
        assert(shifted.drop_last() =~= events_after_insert(rest, at, count));
        let e = events.last();
        assert(shifted.last() == shifted_for_insert(e, at, count));
        if e.frame() >= at {
            assert(events[events.len() - 1] == e);
        }
        assert(events =~= rest.push(e));
    }
}

/// `frames` with `count` neutral frames inserted before frame `at`.
pub fn insert_neutral_frames(frames: &Vec<TasInputFrame>, at: usize, count: usize) -> (r: Vec<TasInputFrame>)
    requires
        at <= frames@.len(),
        frames@.len() + count <= usize::MAX,
    ensures
        r@ == frames_after_insert(frames@, at as int, count as nat),
{
    let mut out: Vec<TasInputFrame> = Vec::new();
    let mut k: usize = 0;
    while k < at
        invariant
            at <= frames@.len(),
            0 <= k <= at,
            out@ == frames@.take(k as int),
        decreases at - k,
    {
        out.push(frames[k]);
        k += 1;
        proof {
            assert(out@ =~= frames@.take(k as int));
        }
    }
    let mut j: usize = 0;
    while j < count
        invariant
            0 <= j <= count,
            out@ == frames@.take(at as int) + Seq::new(j as nat, |x: int| neutral_frame()),
        decreases count - j,
    {
        out.push(TasInputFrame::neutral());
        j += 1;
        proof {
            assert(out@ =~= frames@.take(at as int) + Seq::new(j as nat, |x: int| neutral_frame()));
        }
    }
    let n = frames.len();
    let ghost prefix = out@;
    let mut k: usize = at;
    while k < n
        invariant
            at <= k <= n,
            n == frames@.len(),
            out@ == prefix + frames@.subrange(at as int, k as int),
        decreases n - k,
    {
        out.push(frames[k]);
        k += 1;
        proof {
            assert(out@ =~= prefix + frames@.subrange(at as int, k as int));
        }
    }
    proof {
        assert(frames@.subrange(at as int, n as int) =~= frames@.skip(at as int));
        assert(out@ =~= frames_after_insert(frames@, at as int, count as nat));
    }
    out
}

/// `frames` without the `count` frames from `start`.
pub fn delete_frames(frames: &Vec<TasInputFrame>, start: usize, count: usize) -> (r: Vec<TasInputFrame>)
    requires
        start + count <= frames@.len(),
    ensures
        r@ == frames_after_delete(frames@, start as int, count as int),
{
    let mut out: Vec<TasInputFrame> = Vec::new();
    let mut k: usize = 0;
    while k < start
        invariant
            start + count <= frames@.len(),
            0 <= k <= start,
            out@ == frames@.take(k as int),
        decreases start - k,
    {
        out.push(frames[k]);
        k += 1;
        proof {
            assert(out@ =~= frames@.take(k as int));
        }
    }
    let n = frames.len();
    let from = start + count;
    let mut k: usize = from;
    while k < n
        invariant
            from <= k <= n,
            from == start + count,
            n == frames@.len(),
            out@ == frames@.take(start as int) + frames@.subrange(from as int, k as int),
        decreases n - k,
    {
        out.push(frames[k]);
        k += 1;
        proof {
            assert(out@ =~= frames@.take(start as int) + frames@.subrange(from as int, k as int));
        }
    }
    proof {
        assert(frames@.subrange(from as int, n as int) =~= frames@.skip(from as int));
    }
    out
}

/// The events after `count` frames are inserted at `at`; `None` when a moved
/// boundary would not be representable.
pub fn shift_events_for_insert(events: &Vec<ReplayEvent>, at: u64, count: u64) -> (r: Option<Vec<ReplayEvent>>)
    ensures
        match r {
            Some(v) => insert_shift_fits(events_view(events@), at, count)
                && events_view(v@) == events_after_insert(events_view(events@), at, count),
            None => !insert_shift_fits(events_view(events@), at, count),
        },
{
    let ghost all = events_view(events@);
    let mut out: Vec<ReplayEvent> = Vec::new();
    let mut k: usize = 0;
    while k < events.len()
        invariant
            0 <= k <= events@.len(),
            all == events_view(events@),
            out@.len() == k,
            forall|j: int| 0 <= j < k ==> (#[trigger] out@[j])@ == shifted_for_insert(all[j], at, count),
            forall|j: int| 0 <= j < k && (#[trigger] all[j]).frame() >= at ==> all[j].frame() + count <= u64::MAX,
        decreases events@.len() - k,
    {
        let mut e = events[k].clone_event();
        let f = e.frame();
        proof {
            assert(all[k as int] == events@[k as int]@);
        }
        if f >= at {
            if f > u64::MAX - count {
                return None;
            }
            e.set_frame(f + count);
        }
        out.push(e);
        k += 1;
    }
    proof {
        assert(events_view(out@) =~= events_after_insert(all, at, count));
    }
    Some(out)
}

/// The events after the `count` frames from `start` are deleted.
pub fn shift_events_for_delete(events: &Vec<ReplayEvent>, start: u64, count: u64) -> (r: Vec<ReplayEvent>)
    requires
        start + count <= u64::MAX,
    ensures
        events_view(r@) == events_after_delete(events_view(events@), start, count),
{
    let ghost all = events_view(events@);
    let mut out: Vec<ReplayEvent> = Vec::new();
    let mut k: usize = 0;
    while k < events.len()
        invariant
            0 <= k <= events@.len(),
            start + count <= u64::MAX,
            all == events_view(events@),
            events_view(out@) == events_after_delete(all.take(k as int), start, count),
        decreases events@.len() - k,
    {
        let mut e = events[k].clone_event();
        let f = e.frame();
        proof {
            assert(all.take(k + 1).drop_last() =~= all.take(k as int));
            assert(all.take(k + 1).last() == events@[k as int]@);
        }
        if f <= start {
            out.push(e);
            proof {
                assert(events_view(out@) =~= events_after_delete(all.take(k + 1), start, count));
            }
        } else if f >= start + count {
            e.set_frame(f - count);
            out.push(e);
            proof {
                assert(events_view(out@) =~= events_after_delete(all.take(k + 1), start, count));
            }
        }
        k += 1;
    }
    proof {
        assert(all.take(events@.len() as int) =~= all);
    }
    out
}

/// `frames` with `input` inserted before frame `at`.
pub open spec fn frames_with_inserted(frames: Seq<TasInputFrame>, at: int, input: TasInputFrame) -> Seq<TasInputFrame> {
    frames.take(at) + seq![input] + frames.skip(at)
}

/// `frames` with `input` inserted before frame `at`.
pub fn insert_frame(frames: &Vec<TasInputFrame>, at: usize, input: TasInputFrame) -> (r: Vec<TasInputFrame>)
    requires
        at <= frames@.len(),
    ensures
        r@ == frames_with_inserted(frames@, at as int, input),
{
    let mut out: Vec<TasInputFrame> = Vec::new();
    let n = frames.len();
    let mut k: usize = 0;
    while k < n
        invariant
            at <= n,
            n == frames@.len(),
            0 <= k <= n,
            k <= at ==> out@ == frames@.take(k as int),
            k > at ==> out@ == frames@.take(at as int) + seq![input] + frames@.subrange(at as int, k as int),
        decreases n - k,
    {
        if k == at {
            out.push(input);
        }
        out.push(frames[k]);
        k += 1;
        proof {
            if k <= at {
                assert(out@ =~= frames@.take(k as int));
            } else {
                assert(out@ =~= frames@.take(at as int) + seq![input] + frames@.subrange(at as int, k as int));
            }
        }
    }
    if at == n {
        out.push(input);
    }
    proof {
        assert(frames@.subrange(at as int, n as int) =~= frames@.skip(at as int));
        assert(out@ =~= frames_with_inserted(frames@, at as int, input));
    }
    out
}

} // verus!
