//! The input clipboard: a copied run of input (and, with it, the copied
//! drive events), pasted, inserted or tiled at the cursor or selection.
use vstd::prelude::*;

use crate::fds_events::{
    can_author_fds_events, is_editable_event, project_media_id, spec_can_author_fds_events,
    spec_is_editable_event, spec_project_media_id,
};
use crate::identity::{IdentityModel, TasProjectIdentity};
use crate::input::{TasDigest, TasInputFrame};
use crate::pattern::{TasInputPattern, TasPatternError};
use crate::replay::{ReplayEvent, ReplayEventModel, events_eq, events_view};
use crate::selection::TasInputSelection;
use crate::session::{SessionModel, TasEditorSession};
use crate::text::{str_eq, string_of};

verus! {

/// Why a clipboard operation was refused.
#[derive(Clone, Copy, Debug, PartialEq, Eq, Structural)]
pub enum TasClipboardError {
    /// The clipboard changed after the operation was drawn up.
    Stale,
    /// Nothing has been copied.
    Empty,
    /// The clipboard generation counter is exhausted.
    GenerationOverflow,
    /// The copied source changed after the copy was drawn up.
    SourceChanged,
    /// Copied drive events cannot be tiled.
    EventsCannotTile,
    /// Only editable FDS drive events can be copied with input frames.
    UneditableEvents,
    /// An event would move past the last boundary a frame number can name.
    EventFrameOverflow,
    /// The resulting event timeline is not valid.
    InvalidTimeline,
}

impl TasClipboardError {
    /// The sentence shown for the error.
    pub open spec fn message_text(&self) -> Seq<char> {
        match self {
            TasClipboardError::Stale => "input clipboard changed after this operation was requested; retry it"@,
            TasClipboardError::Empty => "input clipboard is empty"@,
            TasClipboardError::GenerationOverflow => "input clipboard generation overflow"@,
            TasClipboardError::SourceChanged => "input-pattern source changed after this copy was prepared; retry it"@,
            TasClipboardError::EventsCannotTile => "copied drive events cannot be tiled safely"@,
            TasClipboardError::UneditableEvents => "only editable FDS drive events can be copied with input frames"@,
            TasClipboardError::EventFrameOverflow => "pasted TAS event frame overflows"@,
            TasClipboardError::InvalidTimeline => "the pasted drive events do not form a valid FDS timeline"@,
        }
    }

    pub fn message(&self) -> (r: &'static str)
        ensures
            r@ == self.message_text(),
    {
        match self {
            TasClipboardError::Stale => "input clipboard changed after this operation was requested; retry it",
            TasClipboardError::Empty => "input clipboard is empty",
            TasClipboardError::GenerationOverflow => "input clipboard generation overflow",
            TasClipboardError::SourceChanged => "input-pattern source changed after this copy was prepared; retry it",
            TasClipboardError::EventsCannotTile => "copied drive events cannot be tiled safely",
            TasClipboardError::UneditableEvents => "only editable FDS drive events can be copied with input frames",
            TasClipboardError::EventFrameOverflow => "pasted TAS event frame overflows",
            TasClipboardError::InvalidTimeline => "the pasted drive events do not form a valid FDS timeline",
        }
    }
}

// ---------------------------------------------------------------------------
// Events of a run.

/// The events at boundaries `start..end`, in order.
pub open spec fn events_within(events: Seq<ReplayEventModel>, start: u64, end: u64) -> Seq<ReplayEventModel>
    decreases events.len(),
{
    if events.len() == 0 {
        Seq::empty()
    } else {
        let rest = events_within(events.drop_last(), start, end);
        let e = events.last();
        if start <= e.frame() && e.frame() < end { rest.push(e) } else { rest }
    }
}

/// The events outside boundaries `start..end`, in order.
pub open spec fn events_outside(events: Seq<ReplayEventModel>, start: u64, end: u64) -> Seq<ReplayEventModel>
    decreases events.len(),
{
    if events.len() == 0 {
        Seq::empty()
    } else {
        let rest = events_outside(events.drop_last(), start, end);
        let e = events.last();
        if start <= e.frame() && e.frame() < end { rest } else { rest.push(e) }
    }
}

/// Events moved back by `start` frames.
pub open spec fn rebased(events: Seq<ReplayEventModel>, start: u64) -> Seq<ReplayEventModel> {
    Seq::new(events.len(), |k: int| events[k].with_frame((events[k].frame() - start) as u64))
}

/// Events moved on by `offset` frames.
pub open spec fn shifted_by(events: Seq<ReplayEventModel>, offset: u64) -> Seq<ReplayEventModel> {
    Seq::new(events.len(), |k: int| events[k].with_frame((events[k].frame() + offset) as u64))
}

/// Whether every event can move on by `offset` frames.
pub open spec fn shift_fits(events: Seq<ReplayEventModel>, offset: u64) -> bool {
    forall|k: int| 0 <= k < events.len() ==> (#[trigger] events[k]).frame() + offset <= u64::MAX
}

/// Whether events may travel with copied input: none, or only editable FDS
/// drive events of a project that can author them.
pub open spec fn copyable_events(identity: IdentityModel, events: Seq<ReplayEventModel>) -> bool {
    events.len() == 0 || (spec_can_author_fds_events(identity) && forall|k: int| 0 <= k < events.len()
        ==> spec_is_editable_event(#[trigger] events[k], spec_project_media_id(identity)))
}

/// Splits events into those at boundaries `start..end` and the others.
pub fn split_events(events: &Vec<ReplayEvent>, start: u64, end: u64) -> (r: (Vec<ReplayEvent>, Vec<ReplayEvent>))
    ensures
        events_view(r.0@) == events_within(events_view(events@), start, end),
        events_view(r.1@) == events_outside(events_view(events@), start, end),
{
    let ghost all = events_view(events@);
    let mut inside: Vec<ReplayEvent> = Vec::new();
    let mut outside: Vec<ReplayEvent> = Vec::new();
    let mut k: usize = 0;
    while k < events.len()
        invariant
            0 <= k <= events@.len(),
            all == events_view(events@),
            events_view(inside@) == events_within(all.take(k as int), start, end),
            events_view(outside@) == events_outside(all.take(k as int), start, end),
        decreases events@.len() - k,
    {
        let e = events[k].clone_event();
        let f = e.frame();
        proof {
            assert(all.take(k + 1).drop_last() =~= all.take(k as int));
            assert(all.take(k + 1).last() == events@[k as int]@);
        }
        if start <= f && f < end {
            inside.push(e);
        } else {
            outside.push(e);
        }
        proof {
            assert(events_view(inside@) =~= events_within(all.take(k + 1), start, end));
            assert(events_view(outside@) =~= events_outside(all.take(k + 1), start, end));
        }
        k += 1;
    }
    proof {
        assert(all.take(events@.len() as int) =~= all);
    }
    (inside, outside)
}

/// Every event of `events_within(_, start, _)` lies at or after `start`.
pub proof fn lemma_within_after_start(events: Seq<ReplayEventModel>, start: u64, end: u64)
    ensures
        forall|k: int| 0 <= k < events_within(events, start, end).len()
            ==> start <= (#[trigger] events_within(events, start, end)[k]).frame() < end,
    decreases events.len(),
{
    if events.len() > 0 {
        lemma_within_after_start(events.drop_last(), start, end);
        let rest = events_within(events.drop_last(), start, end);
        let e = events.last();
        if start <= e.frame() && e.frame() < end {
            assert forall|k: int| 0 <= k < rest.push(e).len() implies start <= (#[trigger] rest.push(e)[k]).frame() < end by {
                if k < rest.len() {
                    assert(rest.push(e)[k] == rest[k]);
                }
            }
        }
    }
}

/// The events inside and outside boundaries `start..end` are, together, the
/// events of the list.
pub proof fn lemma_split_keeps_events(events: Seq<ReplayEventModel>, start: u64, end: u64)
    ensures
        events_outside(events, start, end).to_multiset().add(events_within(events, start, end).to_multiset())
            == events.to_multiset(),
    decreases events.len(),
{
    broadcast use vstd::seq_lib::group_to_multiset_ensures, vstd::multiset::group_multiset_axioms;

    if events.len() == 0 {
        assert(events_outside(events, start, end).to_multiset().add(events_within(events, start, end).to_multiset())
            =~= events.to_multiset());
    } else {
        lemma_split_keeps_events(events.drop_last(), start, end);
        assert(events =~= events.drop_last().push(events.last()));
        assert(events_outside(events, start, end).to_multiset().add(events_within(events, start, end).to_multiset())
            =~= events.to_multiset());
    }
}

/// Moving the events of `start..end` back by `start` and on again by `start`
/// gives them back.
pub proof fn lemma_rebase_then_shift(events: Seq<ReplayEventModel>, start: u64, end: u64)
    ensures
        shifted_by(rebased(events_within(events, start, end), start), start) == events_within(events, start, end),
{
    lemma_within_after_start(events, start, end);
    let w = events_within(events, start, end);
    assert forall|k: int| 0 <= k < w.len() implies #[trigger] shifted_by(rebased(w, start), start)[k] == w[k] by {
        assert(start <= w[k].frame());
    }
    assert(shifted_by(rebased(w, start), start) =~= w);
}

/// Events moved back by `start` frames; each must lie at or after `start`.
pub fn rebase_events(events: &Vec<ReplayEvent>, start: u64) -> (r: Vec<ReplayEvent>)
    requires
        forall|k: int| 0 <= k < events@.len() ==> (#[trigger] events@[k])@.frame() >= start,
    ensures
        events_view(r@) == rebased(events_view(events@), start),
{
    let mut out: Vec<ReplayEvent> = Vec::new();
    let mut k: usize = 0;
    while k < events.len()
        invariant
            0 <= k <= events@.len(),
            forall|j: int| 0 <= j < events@.len() ==> (#[trigger] events@[j])@.frame() >= start,
            out@.len() == k,
            forall|j: int| 0 <= j < k ==> (#[trigger] out@[j])@ == events@[j]@.with_frame((events@[j]@.frame() - start) as u64),
        decreases events@.len() - k,
    {
        let mut e = events[k].clone_event();
        let f = e.frame();
        e.set_frame(f - start);
        out.push(e);
        k += 1;
    }
    proof {
        assert(events_view(out@) =~= rebased(events_view(events@), start));
    }
    out
}

/// Events moved on by `offset` frames, or `None` when one would pass the
/// last boundary a frame number can name.
pub fn shift_events(events: &Vec<ReplayEvent>, offset: u64) -> (r: Option<Vec<ReplayEvent>>)
    ensures
        match r {
            Some(v) => shift_fits(events_view(events@), offset) && events_view(v@) == shifted_by(events_view(events@), offset),
            None => !shift_fits(events_view(events@), offset),
        },
{
    let mut out: Vec<ReplayEvent> = Vec::new();
    let mut k: usize = 0;
    while k < events.len()
        invariant
            0 <= k <= events@.len(),
            out@.len() == k,
            forall|j: int| 0 <= j < k ==> (#[trigger] events@[j])@.frame() + offset <= u64::MAX,
            forall|j: int| 0 <= j < k ==> (#[trigger] out@[j])@ == events@[j]@.with_frame((events@[j]@.frame() + offset) as u64),
        decreases events@.len() - k,
    {
        let mut e = events[k].clone_event();
        let f = e.frame();
        if f > u64::MAX - offset {
            proof {
                assert(events_view(events@)[k as int] == events@[k as int]@);
            }
            return None;
        }
        e.set_frame(f + offset);
        out.push(e);
        k += 1;
    }
    proof {
        assert forall|j: int| 0 <= j < events_view(events@).len() implies (#[trigger] events_view(events@)[j]).frame() + offset <= u64::MAX by {
            assert(events_view(events@)[j] == events@[j]@);
        }
        assert(events_view(out@) =~= shifted_by(events_view(events@), offset));
    }
    Some(out)
}

/// Accepts events that may travel with copied input.
pub fn validate_copied_events(identity: &TasProjectIdentity, events: &Vec<ReplayEvent>) -> (r: Result<(), TasClipboardError>)
    ensures
        r is Ok == copyable_events(identity@, events_view(events@)),
        r is Err ==> r == Err::<(), TasClipboardError>(TasClipboardError::UneditableEvents),
{
    if events.len() == 0 {
        return Ok(());
    }
    if !can_author_fds_events(identity) {
        return Err(TasClipboardError::UneditableEvents);
    }
    let media_id = project_media_id(identity);
    let mut k: usize = 0;
    while k < events.len()
        invariant
            0 <= k <= events@.len(),
            media_id@ == spec_project_media_id(identity@),
            forall|j: int| 0 <= j < k ==> spec_is_editable_event(#[trigger] events_view(events@)[j], media_id@),
        decreases events@.len() - k,
    {
        proof {
            assert(events_view(events@)[k as int] == events@[k as int]@);
        }
        if !is_editable_event(&events[k], &media_id) {
            return Err(TasClipboardError::UneditableEvents);
        }
        k += 1;
    }
    Ok(())
}

// ---------------------------------------------------------------------------
// The clipboard.

/// What was copied: the run, where it came from, and its events relative to
/// the run's first frame.
#[derive(Debug, PartialEq, Eq)]
pub struct TasInputClipboardEntry {
    pub source_branch_id: String,
    pub source_movie_digest: TasDigest,
    pub start: u64,
    pub pattern: TasInputPattern,
    pub events: Vec<ReplayEvent>,
    pub include_events: bool,
}

/// The clipboard and its generation, which every change moves on.
#[derive(Debug)]
pub struct TasInputClipboardState {
    pub generation: u64,
    pub entry: Option<TasInputClipboardEntry>,
}

/// A request to copy a run of the selected branch.
#[derive(Clone, Debug, PartialEq, Eq)]
pub struct TasInputClipboardCopyAction {
    pub expected_project_digest: TasDigest,
    pub source_branch_id: String,
    pub source_movie_digest: TasDigest,
    pub start: u64,
    pub pattern: TasInputPattern,
    pub events: Vec<ReplayEvent>,
    pub include_events: bool,
    pub expected_selection: Option<TasInputSelection>,
}

/// Why a copy is refused before its events are looked at.
pub open spec fn spec_copy_refusal(
    s: SessionModel,
    a: TasInputClipboardCopyAction,
    selection: Option<TasInputSelection>,
) -> Option<crate::editor::TasEditorError> {
    let frames = s.frames();
    let len = a.pattern@.len();
    if TasDigest(s.current.project.edit_generation) != a.expected_project_digest {
        Some(crate::editor::TasEditorError::StaleProject)
    } else if s.branch().id != a.source_branch_id@ {
        Some(crate::editor::TasEditorError::StaleBranch)
    } else if TasDigest(s.branch().revision) != a.source_movie_digest {
        Some(crate::editor::TasEditorError::StaleBranch)
    } else if a.expected_selection is Some && !(selection is Some
        && selection.unwrap().branch_id@ == a.expected_selection.unwrap().branch_id@
        && selection.unwrap().start == a.expected_selection.unwrap().start
        && selection.unwrap().end == a.expected_selection.unwrap().end) {
        Some(crate::editor::TasEditorError::StaleSelection)
    } else if len == 0 || len > crate::limits::MAX_PROJECT_FRAMES {
        Some(crate::editor::TasEditorError::Pattern(TasPatternError::InvalidLength))
    } else if a.start + len > frames.len() {
        Some(crate::editor::TasEditorError::Pattern(TasPatternError::OutsideBranch))
    } else if frames.subrange(a.start as int, a.start + len) != a.pattern@ {
        Some(crate::editor::TasEditorError::Clipboard(TasClipboardError::SourceChanged))
    } else if a.include_events && events_within(s.branch().events, a.start, (a.start + len) as u64) != events_view(a.events@) {
        Some(crate::editor::TasEditorError::Clipboard(TasClipboardError::SourceChanged))
    } else if a.include_events && !copyable_events(s.current.project.identity, events_view(a.events@)) {
        Some(crate::editor::TasEditorError::Clipboard(TasClipboardError::UneditableEvents))
    } else {
        None
    }
}

impl TasInputClipboardState {
    pub fn new() -> (r: Self)
        ensures
            r.generation == 0,
            r.entry is None,
    {
        TasInputClipboardState { generation: 0, entry: None }
    }

    /// Whether something has been copied.
    pub fn has_entry(&self) -> (r: bool)
        ensures
            r == self.entry is Some,
    {
        self.entry.is_some()
    }

    /// The clipboard's generation.
    pub fn generation(&self) -> (r: u64)
        ensures
            r == self.generation,
    {
        self.generation
    }

    /// Empties the clipboard; an emptied clipboard moves to a new generation.
    pub fn clear(&mut self) -> (r: Result<(), TasClipboardError>)
        ensures
            old(self).entry is None ==> r is Ok && *final(self) == *old(self),
            old(self).entry is Some && old(self).generation == u64::MAX ==> r == Err::<(), TasClipboardError>(TasClipboardError::GenerationOverflow)
                && *final(self) == *old(self),
            old(self).entry is Some && old(self).generation < u64::MAX ==> r is Ok
                && final(self).generation == old(self).generation + 1 && final(self).entry is None,
    {
        if self.entry.is_some() {
            if self.generation == u64::MAX {
                return Err(TasClipboardError::GenerationOverflow);
            }
            self.generation = self.generation + 1;
            self.entry = None;
        }
        Ok(())
    }

    /// The entry, when the clipboard is still at `generation`.
    pub fn entry(&self, generation: u64) -> (r: Result<&TasInputClipboardEntry, TasClipboardError>)
        ensures
            match r {
                Ok(e) => self.generation == generation && self.entry == Some(*e),
                Err(e) => (e == TasClipboardError::Stale && self.generation != generation)
                    || (e == TasClipboardError::Empty && self.generation == generation && self.entry is None),
            },
    {
        if self.generation != generation {
            return Err(TasClipboardError::Stale);
        }
        match &self.entry {
            Some(e) => Ok(e),
            None => Err(TasClipboardError::Empty),
        }
    }

    /// Copies a run of the session's selected branch, with the run's events
    /// when asked to, after checking the copy still describes the branch.
    pub fn copy(
        &mut self,
        action: TasInputClipboardCopyAction,
        session: &TasEditorSession,
        selection: Option<TasInputSelection>,
    ) -> (r: Result<(), crate::editor::TasEditorError>)
        requires
            session@.wf(),
        ensures
            ({
                let s = session@;
                let refusal = spec_copy_refusal(s, action, selection);
                if refusal is Some {
                    r == Err::<(), crate::editor::TasEditorError>(refusal.unwrap()) && *final(self) == *old(self)
                } else if old(self).generation == u64::MAX {
                    r == Err::<(), crate::editor::TasEditorError>(crate::editor::TasEditorError::Clipboard(TasClipboardError::GenerationOverflow))
                        && *final(self) == *old(self)
                } else {
                    &&& r is Ok
                    &&& final(self).generation == old(self).generation + 1
                    &&& final(self).entry is Some
                    &&& ({
                        let e = final(self).entry.unwrap();
                        &&& e.source_branch_id@ == action.source_branch_id@
                        &&& e.source_movie_digest == action.source_movie_digest
                        &&& e.start == action.start
                        &&& e.pattern@ == action.pattern@
                        &&& e.include_events == action.include_events
                        &&& events_view(e.events@) == if action.include_events {
                            rebased(events_view(action.events@), action.start)
                        } else {
                            Seq::<ReplayEventModel>::empty()
                        }
                    })
                }
            }),
    {
        if session.project_content_digest() != action.expected_project_digest {
            return Err(crate::editor::TasEditorError::StaleProject);
        }
        if !str_eq(session.selected_branch_id(), action.source_branch_id.as_str()) {
            return Err(crate::editor::TasEditorError::StaleBranch);
        }
        proof {
            crate::project::lemma_branch_index_of_member(session@.current.project.branches, session@.current.selected);
        }
        match session.project().branch_movie_digest(action.source_branch_id.as_str()) {
            Some(d) => if d != action.source_movie_digest {
                return Err(crate::editor::TasEditorError::StaleBranch);
            },
            None => return Err(crate::editor::TasEditorError::StaleBranch),
        }
        match &action.expected_selection {
            Some(expected) => {
                let same = match &selection {
                    Some(current) => current.same_as(expected),
                    None => false,
                };
                if !same {
                    return Err(crate::editor::TasEditorError::StaleSelection);
                }
            },
            None => {},
        }
        let len = action.pattern.frames.len();
        let source = session.selected_branch();
        let current = match source.input_pattern(action.start, len as u64) {
            Ok(p) => p,
            Err(e) => return Err(crate::editor::TasEditorError::Pattern(e)),
        };
        if !current.same_as(&action.pattern) {
            return Err(crate::editor::TasEditorError::Clipboard(TasClipboardError::SourceChanged));
        }
        let end = action.start + len as u64;
        let events = if action.include_events {
            let (inside, _) = split_events(&source.events, action.start, end);
            if !events_eq(&inside, &action.events) {
                return Err(crate::editor::TasEditorError::Clipboard(TasClipboardError::SourceChanged));
            }
            match validate_copied_events(&session.project().identity, &action.events) {
                Ok(()) => {},
                Err(e) => return Err(crate::editor::TasEditorError::Clipboard(e)),
            }
            proof {
                lemma_within_after_start(events_view(source.events@), action.start, end);
                assert forall|k: int| 0 <= k < action.events@.len() implies (#[trigger] action.events@[k])@.frame() >= action.start by {
                    assert(events_view(action.events@)[k] == action.events@[k]@);
                    assert(events_view(inside@)[k] == events_view(action.events@)[k]);
                }
            }
            rebase_events(&action.events, action.start)
        } else {
            Vec::new()
        };
        if self.generation == u64::MAX {
            return Err(crate::editor::TasEditorError::Clipboard(TasClipboardError::GenerationOverflow));
        }
        self.generation = self.generation + 1;
        let ghost pattern_view = action.pattern@;
        self.entry = Some(TasInputClipboardEntry {
            source_branch_id: action.source_branch_id,
            source_movie_digest: action.source_movie_digest,
            start: action.start,
            pattern: action.pattern,
            events,
            include_events: action.include_events,
        });
        proof {
            assert(events_view(Seq::<ReplayEvent>::empty()) =~= Seq::<ReplayEventModel>::empty());
        }
        Ok(())
    }
}

// ---------------------------------------------------------------------------
// Laying runs into a branch's frames.

/// `frames` with the run `pattern` laid over it from `start`.
pub fn splice_frames(frames: &Vec<TasInputFrame>, start: usize, pattern: &Vec<TasInputFrame>) -> (r: Vec<TasInputFrame>)
    requires
        start + pattern@.len() <= frames@.len(),
    ensures
        r@ == crate::session::splice_pattern(frames@, start as int, pattern@),
{
    let n = frames.len();
    let m = pattern.len();
    let mut out: Vec<TasInputFrame> = Vec::new();
    let mut k: usize = 0;
    while k < n
        invariant
            n == frames@.len(),
            m == pattern@.len(),
            start + m <= n,
            0 <= k <= n,
            out@ == crate::session::splice_pattern(frames@, start as int, pattern@).take(k as int),
        decreases n - k,
    {
        let f = if start <= k && k < start + m { pattern[k - start] } else { frames[k] };
        out.push(f);
        k += 1;
        proof {
            assert(out@ =~= crate::session::splice_pattern(frames@, start as int, pattern@).take(k as int));
        }
    }
    proof {
        assert(out@ =~= crate::session::splice_pattern(frames@, start as int, pattern@));
    }
    out
}

/// `frames` with `run` inserted before frame `at`.
pub fn insert_run(frames: &Vec<TasInputFrame>, at: usize, run: &Vec<TasInputFrame>) -> (r: Vec<TasInputFrame>)
    requires
        at <= frames@.len(),
        frames@.len() + run@.len() <= usize::MAX,
    ensures
        r@ == frames@.take(at as int) + run@ + frames@.skip(at as int),
{
    let mut out: Vec<TasInputFrame> = Vec::new();
    let mut k: usize = 0;
    while k < at
        invariant
            at <= frames@.len(),
            0 <= k <= at,
            out@ == frames@.take(k as int),
        decreases at - k,
    {
        out.push(frames[k]);
        k += 1;
        proof {
            assert(out@ =~= frames@.take(k as int));
        }
    }
    let mut j: usize = 0;
    while j < run.len()
        invariant
            at <= frames@.len(),
            0 <= j <= run@.len(),
            out@ == frames@.take(at as int) + run@.take(j as int),
        decreases run@.len() - j,
    {
        out.push(run[j]);
        j += 1;
        proof {
            assert(out@ =~= frames@.take(at as int) + run@.take(j as int));
        }
    }
    let mut i: usize = at;
    while i < frames.len()
        invariant
            at <= i <= frames@.len(),
            out@ == frames@.take(at as int) + run@ + frames@.subrange(at as int, i as int),
        decreases frames@.len() - i,
    {
        out.push(frames[i]);
        i += 1;
        proof {
            assert(out@ =~= frames@.take(at as int) + run@ + frames@.subrange(at as int, i as int));
        }
    }
    proof {
        assert(run@.take(run@.len() as int) =~= run@);
        assert(frames@.subrange(at as int, frames@.len() as int) =~= frames@.skip(at as int));
    }
    out
}

} // verus!
