//! Frame-boundary replay events recorded alongside the input frames.
use vstd::prelude::*;

use crate::text::{clone_string, string_eq};

verus! {

/// A change to removable media at a frame boundary.
#[derive(Clone, Debug, PartialEq, Eq)]
pub enum MediaEvent {
    SetWriteProtected { slot: String, write_protected: bool },
    Eject { slot: String },
    Insert { slot: String, media_id: String, side: Option<u8>, write_protected: bool },
}

/// An event that takes effect at the boundary before input frame `frame`.
#[derive(Clone, Debug, PartialEq, Eq)]
pub enum ReplayEvent {
    FdsDiskSide { frame: u64, side: u8 },
    Media { frame: u64, sequence: u64, event: MediaEvent },
    GameBoyLink { frame: u64, tick: u64 },
    GameBoyLinkState { frame: u64 },
    GameBoyLinkStateAtTick { frame: u64, tick: u64 },
    WonderSwanLink { frame: u64, session_cycle: u64 },
}

/// Mathematical model of a media event.
pub enum MediaEventModel {
    SetWriteProtected { slot: Seq<char>, write_protected: bool },
    Eject { slot: Seq<char> },
    Insert { slot: Seq<char>, media_id: Seq<char>, side: Option<u8>, write_protected: bool },
}

/// Mathematical model of a replay event.
pub enum ReplayEventModel {
    FdsDiskSide { frame: u64, side: u8 },
    Media { frame: u64, sequence: u64, event: MediaEventModel },
    GameBoyLink { frame: u64, tick: u64 },
    GameBoyLinkState { frame: u64 },
    GameBoyLinkStateAtTick { frame: u64, tick: u64 },
    WonderSwanLink { frame: u64, session_cycle: u64 },
}

impl View for MediaEvent {
    type V = MediaEventModel;

    open spec fn view(&self) -> MediaEventModel {
        match self {
            MediaEvent::SetWriteProtected { slot, write_protected } =>
                MediaEventModel::SetWriteProtected { slot: slot@, write_protected: *write_protected },
            MediaEvent::Eject { slot } => MediaEventModel::Eject { slot: slot@ },
            MediaEvent::Insert { slot, media_id, side, write_protected } => MediaEventModel::Insert {
                slot: slot@,
                media_id: media_id@,
                side: *side,
                write_protected: *write_protected,
            },
        }
    }
}

impl View for ReplayEvent {
    type V = ReplayEventModel;

    open spec fn view(&self) -> ReplayEventModel {
        match self {
            ReplayEvent::FdsDiskSide { frame, side } => ReplayEventModel::FdsDiskSide {
                frame: *frame,
                side: *side,
            },
            ReplayEvent::Media { frame, sequence, event } => ReplayEventModel::Media {
                frame: *frame,
                sequence: *sequence,
                event: event@,
            },
            ReplayEvent::GameBoyLink { frame, tick } => ReplayEventModel::GameBoyLink {
                frame: *frame,
                tick: *tick,
            },
            ReplayEvent::GameBoyLinkState { frame } => ReplayEventModel::GameBoyLinkState {
                frame: *frame,
            },
            ReplayEvent::GameBoyLinkStateAtTick { frame, tick } =>
                ReplayEventModel::GameBoyLinkStateAtTick { frame: *frame, tick: *tick },
            ReplayEvent::WonderSwanLink { frame, session_cycle } =>
                ReplayEventModel::WonderSwanLink { frame: *frame, session_cycle: *session_cycle },
        }
    }
}

impl ReplayEventModel {
    pub open spec fn frame(self) -> u64 {
        match self {
            ReplayEventModel::FdsDiskSide { frame, .. } => frame,
            ReplayEventModel::Media { frame, .. } => frame,
            ReplayEventModel::GameBoyLink { frame, .. } => frame,
            ReplayEventModel::GameBoyLinkState { frame } => frame,
            ReplayEventModel::GameBoyLinkStateAtTick { frame, .. } => frame,
            ReplayEventModel::WonderSwanLink { frame, .. } => frame,
        }
    }

    pub open spec fn with_frame(self, f: u64) -> ReplayEventModel {
        match self {
            ReplayEventModel::FdsDiskSide { side, .. } => ReplayEventModel::FdsDiskSide {
                frame: f,
                side,
            },
            ReplayEventModel::Media { sequence, event, .. } => ReplayEventModel::Media {
                frame: f,
                sequence,
                event,
            },
            ReplayEventModel::GameBoyLink { tick, .. } => ReplayEventModel::GameBoyLink {
                frame: f,
                tick,
            },
            ReplayEventModel::GameBoyLinkState { .. } => ReplayEventModel::GameBoyLinkState {
                frame: f,
            },
            ReplayEventModel::GameBoyLinkStateAtTick { tick, .. } =>
                ReplayEventModel::GameBoyLinkStateAtTick { frame: f, tick },
            ReplayEventModel::WonderSwanLink { session_cycle, .. } =>
                ReplayEventModel::WonderSwanLink { frame: f, session_cycle },
        }
    }
}

impl MediaEvent {
    pub fn clone_media(&self) -> (r: Self)
        ensures
            r@ == self@,
    {
        match self {
            MediaEvent::SetWriteProtected { slot, write_protected } =>
                MediaEvent::SetWriteProtected {
                slot: clone_string(slot),
                write_protected: *write_protected,
            },
            MediaEvent::Eject { slot } => MediaEvent::Eject { slot: clone_string(slot) },
            MediaEvent::Insert { slot, media_id, side, write_protected } => MediaEvent::Insert {
                slot: clone_string(slot),
                media_id: clone_string(media_id),
                side: *side,
                write_protected: *write_protected,
            },
        }
    }

    pub fn same_as(&self, other: &Self) -> (r: bool)
        ensures
            r == (self@ == other@),
    {
        match (self, other) {
            (
                MediaEvent::SetWriteProtected { slot: a, write_protected: wa },
                MediaEvent::SetWriteProtected { slot: b, write_protected: wb },
            ) => string_eq(a, b) && *wa == *wb,
            (MediaEvent::Eject { slot: a }, MediaEvent::Eject { slot: b }) => string_eq(a, b),
            (
                MediaEvent::Insert { slot: a, media_id: ma, side: sa, write_protected: wa },
                MediaEvent::Insert { slot: b, media_id: mb, side: sb, write_protected: wb },
            ) => string_eq(a, b) && string_eq(ma, mb) && *sa == *sb && *wa == *wb,
            _ => false,
        }
    }
}

impl ReplayEvent {
    /// The boundary the event takes effect at.
    pub fn frame(&self) -> (r: u64)
        ensures
            r == self@.frame(),
    {
        match self {
            ReplayEvent::FdsDiskSide { frame, .. } => *frame,
            ReplayEvent::Media { frame, .. } => *frame,
            ReplayEvent::GameBoyLink { frame, .. } => *frame,
            ReplayEvent::GameBoyLinkState { frame } => *frame,
            ReplayEvent::GameBoyLinkStateAtTick { frame, .. } => *frame,
            ReplayEvent::WonderSwanLink { frame, .. } => *frame,
        }
    }

    /// Moves the event to another boundary.
    pub fn set_frame(&mut self, new_frame: u64)
        ensures
            final(self)@ == old(self)@.with_frame(new_frame),
    {
        match self {
            ReplayEvent::FdsDiskSide { frame, .. } => *frame = new_frame,
            ReplayEvent::Media { frame, .. } => *frame = new_frame,
            ReplayEvent::GameBoyLink { frame, .. } => *frame = new_frame,
            ReplayEvent::GameBoyLinkState { frame } => *frame = new_frame,
            ReplayEvent::GameBoyLinkStateAtTick { frame, .. } => *frame = new_frame,
            ReplayEvent::WonderSwanLink { frame, .. } => *frame = new_frame,
        }
    }

    pub fn clone_event(&self) -> (r: Self)
        ensures
            r@ == self@,
    {
        match self {
            ReplayEvent::FdsDiskSide { frame, side } => ReplayEvent::FdsDiskSide {
                frame: *frame,
                side: *side,
            },
            ReplayEvent::Media { frame, sequence, event } => ReplayEvent::Media {
                frame: *frame,
                sequence: *sequence,
                event: event.clone_media(),
            },
            ReplayEvent::GameBoyLink { frame, tick } => ReplayEvent::GameBoyLink {
                frame: *frame,
                tick: *tick,
            },
            ReplayEvent::GameBoyLinkState { frame } => ReplayEvent::GameBoyLinkState {
                frame: *frame,
            },
            ReplayEvent::GameBoyLinkStateAtTick { frame, tick } =>
                ReplayEvent::GameBoyLinkStateAtTick { frame: *frame, tick: *tick },
            ReplayEvent::WonderSwanLink { frame, session_cycle } => ReplayEvent::WonderSwanLink {
                frame: *frame,
                session_cycle: *session_cycle,
            },
        }
    }

    /// Whether two events are the same.
    pub fn same_as(&self, other: &Self) -> (r: bool)
        ensures
            r == (self@ == other@),
    {
        match (self, other) {
            (
                ReplayEvent::FdsDiskSide { frame: fa, side: sa },
                ReplayEvent::FdsDiskSide { frame: fb, side: sb },
            ) => *fa == *fb && *sa == *sb,
            (
                ReplayEvent::Media { frame: fa, sequence: qa, event: ea },
                ReplayEvent::Media { frame: fb, sequence: qb, event: eb },
            ) => *fa == *fb && *qa == *qb && ea.same_as(eb),
            (
                ReplayEvent::GameBoyLink { frame: fa, tick: ta },
                ReplayEvent::GameBoyLink { frame: fb, tick: tb },
            ) => *fa == *fb && *ta == *tb,
            (
                ReplayEvent::GameBoyLinkState { frame: fa },
                ReplayEvent::GameBoyLinkState { frame: fb },
            ) => *fa == *fb,
            (
                ReplayEvent::GameBoyLinkStateAtTick { frame: fa, tick: ta },
                ReplayEvent::GameBoyLinkStateAtTick { frame: fb, tick: tb },
            ) => *fa == *fb && *ta == *tb,
            (
                ReplayEvent::WonderSwanLink { frame: fa, session_cycle: ca },
                ReplayEvent::WonderSwanLink { frame: fb, session_cycle: cb },
            ) => *fa == *fb && *ca == *cb,
            _ => false,
        }
    }
}

/// The views of a list of events.
pub open spec fn events_view(events: Seq<ReplayEvent>) -> Seq<ReplayEventModel> {
    events.map_values(|e: ReplayEvent| e@)
}

/// Events sorted by boundary, keeping the recorded order of events that share
/// a boundary.
pub open spec fn sorted_by_frame(events: Seq<ReplayEventModel>) -> bool {
    forall|i: int, j: int| 0 <= i < j < events.len() ==> (#[trigger] events[i]).frame() <= (
    #[trigger] events[j]).frame()
}

/// `e` placed after every event of a sorted list whose boundary is not later.
pub open spec fn insert_by_frame(sorted: Seq<ReplayEventModel>, e: ReplayEventModel) -> Seq<ReplayEventModel>
    decreases sorted.len(),
{
    if sorted.len() == 0 {
        seq![e]
    } else if sorted.last().frame() <= e.frame() {
        sorted.push(e)
    } else {
        insert_by_frame(sorted.drop_last(), e).push(sorted.last())
    }
}

/// The canonical order of a list of events: a stable sort by boundary.
pub open spec fn canonical_order(events: Seq<ReplayEventModel>) -> Seq<ReplayEventModel>
    decreases events.len(),
{
    if events.len() == 0 {
        Seq::empty()
    } else {
        insert_by_frame(canonical_order(events.drop_last()), events.last())
    }
}

proof fn lemma_insert_sorted(sorted: Seq<ReplayEventModel>, e: ReplayEventModel)
    requires
        sorted_by_frame(sorted),
    ensures
        sorted_by_frame(insert_by_frame(sorted, e)),
        insert_by_frame(sorted, e).len() == sorted.len() + 1,
        forall|k: int|
            0 <= k < insert_by_frame(sorted, e).len() ==> (#[trigger] insert_by_frame(sorted, e)[k]) == e
                || (exists|m: int| 0 <= m < sorted.len() && sorted[m] == insert_by_frame(sorted, e)[k]),
    decreases sorted.len(),
{
    if sorted.len() > 0 && sorted.last().frame() > e.frame() {
        let t = sorted.drop_last();
        assert forall|i: int, j: int| 0 <= i < j < t.len() implies (#[trigger] t[i]).frame() <= (#[trigger] t[j]).frame() by {
            assert(t[i] == sorted[i] && t[j] == sorted[j]);
        }
        lemma_insert_sorted(t, e);
        let ins = insert_by_frame(t, e);
        let r = ins.push(sorted.last());
        assert forall|k: int| 0 <= k < ins.len() implies (#[trigger] ins[k]).frame() <= sorted.last().frame() by {
            if ins[k] != e {
                let m = choose|m: int| 0 <= m < t.len() && t[m] == ins[k];
                assert(sorted[m] == t[m]);
                assert(sorted[m].frame() <= sorted[sorted.len() - 1].frame());
            }
        }
        assert forall|i: int, j: int| 0 <= i < j < r.len() implies (#[trigger] r[i]).frame() <= (#[trigger] r[j]).frame() by {
            if j == r.len() - 1 {
                assert(r[i] == ins[i]);
            } else {
                assert(r[i] == ins[i] && r[j] == ins[j]);
            }
        }
        assert forall|k: int| 0 <= k < r.len() implies (#[trigger] r[k]) == e || (exists|m: int| 0 <= m < sorted.len() && sorted[m] == r[k]) by {
            if k == r.len() - 1 {
                assert(sorted[sorted.len() - 1] == r[k]);
            } else {
                assert(r[k] == ins[k]);
                if ins[k] != e {
                    let m = choose|m: int| 0 <= m < t.len() && t[m] == ins[k];
                    assert(sorted[m] == t[m]);
                }
            }
        }
    } else if sorted.len() > 0 {
        let r = sorted.push(e);
        assert forall|i: int, j: int| 0 <= i < j < r.len() implies (#[trigger] r[i]).frame() <= (#[trigger] r[j]).frame() by {
            if j == r.len() - 1 {
                assert(r[i] == sorted[i]);
                assert(sorted[i].frame() <= sorted[sorted.len() - 1].frame());
            }
        }
        assert forall|k: int| 0 <= k < r.len() implies (#[trigger] r[k]) == e || (exists|m: int| 0 <= m < sorted.len() && sorted[m] == r[k]) by {
            if k < sorted.len() {
                assert(sorted[k] == r[k]);
            }
        }
    }
}

/// The canonical order is sorted by boundary and keeps every event.
pub proof fn law_canonical_order_sorted(events: Seq<ReplayEventModel>)
    ensures
        sorted_by_frame(canonical_order(events)),
        canonical_order(events).len() == events.len(),
    decreases events.len(),
{
    if events.len() > 0 {
        law_canonical_order_sorted(events.drop_last());
        lemma_insert_sorted(canonical_order(events.drop_last()), events.last());
    }
}

/// Places `e` into an already canonical list.
fn insert_event_by_frame(sorted: &mut Vec<ReplayEvent>, e: ReplayEvent)
    ensures
        events_view(final(sorted)@) == insert_by_frame(events_view(old(sorted)@), e@),
{
    let ghost s0 = events_view(sorted@);
    let n = sorted.len();
    let mut i: usize = n;
    proof {
        assert(s0.take(n as int) =~= s0);
        assert(insert_by_frame(s0, e@) + s0.skip(n as int) =~= insert_by_frame(s0, e@));
    }
    // find the first position from the end whose predecessor is not later
    while i > 0 && sorted[i - 1].frame() > e.frame()
        invariant
            0 <= i <= n,
            n == sorted@.len(),
            s0 == events_view(sorted@),
            forall|k: int| i <= k < n ==> (#[trigger] sorted@[k])@.frame() > e@.frame(),
            insert_by_frame(s0, e@) == insert_by_frame(s0.take(i as int), e@) + s0.skip(i as int),
        decreases i,
    {
        proof {
            let t = s0.take(i as int);
            assert(t.last() == s0[i - 1]);
            assert(t.drop_last() =~= s0.take(i - 1));
            assert(s0.skip(i - 1) =~= seq![s0[i - 1]] + s0.skip(i as int));
            assert(insert_by_frame(t, e@) == insert_by_frame(s0.take(i - 1), e@).push(s0[i - 1]));
            assert(insert_by_frame(s0.take(i - 1), e@).push(s0[i - 1]) + s0.skip(i as int) =~= insert_by_frame(s0.take(i - 1), e@) + s0.skip(i - 1));
        }
        i -= 1;
    }
    proof {
        let t = s0.take(i as int);
        if i > 0 {
            assert(t.last() == s0[i - 1]);
        }
        assert(insert_by_frame(t, e@) == t.push(e@));
    }
    sorted.insert(i, e);
    proof {
        assert(events_view(sorted@) =~= s0.take(i as int).push(e@) + s0.skip(i as int));
    }
}

/// The events in canonical order.
pub fn canonicalize_events(events: &Vec<ReplayEvent>) -> (r: Vec<ReplayEvent>)
    ensures
        events_view(r@) == canonical_order(events_view(events@)),
{
    let ghost all = events_view(events@);
    let mut out: Vec<ReplayEvent> = Vec::new();
    let mut i: usize = 0;
    while i < events.len()
        invariant
            0 <= i <= events@.len(),
            all == events_view(events@),
            events_view(out@) == canonical_order(all.take(i as int)),
        decreases events@.len() - i,
    {
        let e = events[i].clone_event();
        proof {
            assert(all.take(i + 1).drop_last() =~= all.take(i as int));
            assert(all.take(i + 1).last() == events@[i as int]@);
        }
        insert_event_by_frame(&mut out, e);
        i += 1;
    }
    proof {
        assert(all.take(events@.len() as int) =~= all);
    }
    out
}

/// A copy of a list of events.
pub fn clone_events(events: &Vec<ReplayEvent>) -> (r: Vec<ReplayEvent>)
    ensures
        events_view(r@) == events_view(events@),
        r@.len() == events@.len(),
{
    let mut out: Vec<ReplayEvent> = Vec::new();
    let mut i: usize = 0;
    while i < events.len()
        invariant
            0 <= i <= events@.len(),
            out@.len() == i,
            forall|k: int| 0 <= k < i ==> (#[trigger] out@[k])@ == events@[k]@,
        decreases events@.len() - i,
    {
        out.push(events[i].clone_event());
        i += 1;
    }
    proof {
        assert(events_view(out@) =~= events_view(events@));
    }
    out
}

/// Whether two lists hold the same events in the same order.
pub fn events_eq(a: &Vec<ReplayEvent>, b: &Vec<ReplayEvent>) -> (r: bool)
    ensures
        r == (events_view(a@) == events_view(b@)),
{
    if a.len() != b.len() {
        proof {
            assert(events_view(a@).len() != events_view(b@).len());
        }
        return false;
    }
    let mut i: usize = 0;
    while i < a.len()
        invariant
            a@.len() == b@.len(),
            0 <= i <= a@.len(),
            forall|k: int| 0 <= k < i ==> a@[k]@ == b@[k]@,
        decreases a@.len() - i,
    {
        if !a[i].same_as(&b[i]) {
            proof {
                assert(events_view(a@)[i as int] != events_view(b@)[i as int]);
            }
            return false;
        }
        i += 1;
    }
    proof {
        assert(events_view(a@) =~= events_view(b@));
    }
    true
}

} // verus!
