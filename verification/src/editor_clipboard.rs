//! The editor's clipboard actions: copying a run, pasting or inserting it at
//! the cursor, tiling it across the selection, and pasting only the checked
//! controls.
use vstd::prelude::*;

use crate::clipboard::{
    TasClipboardError, TasInputClipboardCopyAction, copyable_events, events_outside, events_within,
    insert_run, rebased, shift_events, shift_fits, shifted_by, splice_frames, split_events,
    validate_copied_events,
};
use crate::digital_masks::{spec_validate_mask, validate_mask};
use crate::editor::{TasEditorError, TasEditorWindowState, lemma_recording_stays_ok};
use crate::editor_edits::{
    TasDigitalAutofireAction, TasDigitalTransformAction, TasPatternWitness, TasSpecialRangeAction,
    check_witness, first_unauthorable, run_authorable, run_changes, spec_run_refusal, spec_witness_refusal,
};
use crate::session::TasEditError;
use crate::timeline_edit::insert_shift_fits;
use crate::fds_events::{project_media_id, spec_project_media_id, timeline_state, validate_timeline};
use crate::input::{TasDigest, TasDigitalInputMask, TasInputFrame};
use crate::limits::MAX_PROJECT_FRAMES;
use crate::pattern::{TasInputPattern, TasPatternError};
use crate::replay::{ReplayEvent, ReplayEventModel, canonical_order, canonicalize_events, clone_events, events_view};
use crate::selection::TasInputSelection;
use crate::session::{SessionModel, SnapshotModel, TasEditorSession, splice_pattern, with_branch_content};
use crate::text::{push_decimal, push_str, string_of};

verus! {

/// A request to paste or insert the clipboard at the cursor.
#[derive(Clone, Debug, PartialEq, Eq)]
pub struct TasInputClipboardPasteAction {
    pub expected_project_digest: TasDigest,
    pub target_branch_id: String,
    pub target_movie_digest: TasDigest,
    pub cursor: u64,
    pub clipboard_generation: u64,
}

/// A request to repeat the clipboard across the selected rows.
#[derive(Clone, Debug, PartialEq, Eq)]
pub struct TasInputClipboardTileAction {
    pub expected_project_digest: TasDigest,
    pub target_branch_id: String,
    pub target_movie_digest: TasDigest,
    pub selection: TasInputSelection,
    pub clipboard_generation: u64,
}

/// Where checked controls are pasted: at the cursor, or tiled across the selection.
#[derive(Clone, Debug, PartialEq, Eq)]
pub enum TasMaskedPasteDestination {
    Cursor(u64),
    Selection(TasInputSelection),
}

/// A request to paste only the checked controls of the clipboard.
#[derive(Clone, Debug, PartialEq, Eq)]
pub struct TasMaskedPasteAction {
    pub expected_project_digest: TasDigest,
    pub target_branch_id: String,
    pub target_movie_digest: TasDigest,
    pub clipboard_generation: u64,
    pub mask: TasDigitalInputMask,
    pub destination: TasMaskedPasteDestination,
}

/// An input clipboard or range-edit action.
#[derive(Clone, Debug, PartialEq, Eq)]
pub enum TasInputClipboardAction {
    CopyPattern(TasInputClipboardCopyAction),
    PasteAtCursor(TasInputClipboardPasteAction),
    InsertAtCursor(TasInputClipboardPasteAction),
    TileAcrossSelection(TasInputClipboardTileAction),
    PasteMaskedControls(TasMaskedPasteAction),
    ApplyDigitalTransform(TasDigitalTransformAction),
    ApplyDigitalAutofire(TasDigitalAutofireAction),
    ApplySpecialRangeTransform(TasSpecialRangeAction),
}

impl TasInputClipboardAction {
    /// Copies `pattern`, the run of branch `source_branch_id` from `start`, without its events.
    pub fn copy_pattern(
        expected_project_digest: TasDigest,
        source_branch_id: String,
        source_movie_digest: TasDigest,
        start: u64,
        pattern: TasInputPattern,
    ) -> (r: Self)
        ensures
            r == TasInputClipboardAction::CopyPattern(TasInputClipboardCopyAction {
                expected_project_digest,
                source_branch_id,
                source_movie_digest,
                start,
                pattern,
                events: r->CopyPattern_0.events,
                include_events: false,
                expected_selection: None,
            }),
            r->CopyPattern_0.events@.len() == 0,
    {
        TasInputClipboardAction::CopyPattern(TasInputClipboardCopyAction {
            expected_project_digest,
            source_branch_id,
            source_movie_digest,
            start,
            pattern,
            events: Vec::new(),
            include_events: false,
            expected_selection: None,
        })
    }

    /// Copies `length` frames of `input` as if they were the run from `start`.
    pub fn copy_constant(
        expected_project_digest: TasDigest,
        source_branch_id: String,
        source_movie_digest: TasDigest,
        start: u64,
        length: u64,
        input: TasInputFrame,
    ) -> (r: Result<Self, TasPatternError>)
        ensures
            match r {
                Ok(TasInputClipboardAction::CopyPattern(a)) => 0 < length <= MAX_PROJECT_FRAMES
                    && a.pattern@ == Seq::new(length as nat, |i: int| input) && a.start == start
                    && a.source_branch_id == source_branch_id && !a.include_events && a.events@.len() == 0
                    && a.expected_project_digest == expected_project_digest
                    && a.source_movie_digest == source_movie_digest && a.expected_selection is None,
                Ok(_) => false,
                Err(e) => e == TasPatternError::InvalidLength && !(0 < length <= MAX_PROJECT_FRAMES),
            },
    {
        match TasInputPattern::constant(length, input) {
            Ok(p) => Ok(Self::copy_pattern(expected_project_digest, source_branch_id, source_movie_digest, start, p)),
            Err(e) => Err(e),
        }
    }

    /// Copies the selected run `selection`, with its events.
    pub fn copy_selection_with_events(
        expected_project_digest: TasDigest,
        source_movie_digest: TasDigest,
        pattern: TasInputPattern,
        events: Vec<ReplayEvent>,
        selection: TasInputSelection,
    ) -> (r: Self)
        ensures
            r matches TasInputClipboardAction::CopyPattern(a) && a.expected_project_digest == expected_project_digest
                && a.source_branch_id@ == selection.branch_id@ && a.source_movie_digest == source_movie_digest
                && a.start == selection.start && a.pattern == pattern && a.events == events && a.include_events
                && a.expected_selection == Some(selection),
    {
        let source_branch_id = crate::text::clone_string(&selection.branch_id);
        let start = selection.start;
        TasInputClipboardAction::CopyPattern(TasInputClipboardCopyAction {
            expected_project_digest,
            source_branch_id,
            source_movie_digest,
            start,
            pattern,
            events,
            include_events: true,
            expected_selection: Some(selection),
        })
    }
}

impl TasInputClipboardAction {
    /// Copies `pattern`, the selected run `selection.0..selection.1` of branch
    /// `source_branch_id`, with the run's events (none are expected).
    pub fn copy_selection(
        expected_project_digest: TasDigest,
        source_branch_id: String,
        source_movie_digest: TasDigest,
        start: u64,
        pattern: TasInputPattern,
        selection: (u64, u64),
    ) -> (r: Self)
        ensures
            r matches TasInputClipboardAction::CopyPattern(a) && a.expected_project_digest == expected_project_digest
                && a.source_branch_id@ == source_branch_id@ && a.source_movie_digest == source_movie_digest
                && a.start == start && a.pattern == pattern && a.events@.len() == 0 && a.include_events
                && a.expected_selection is Some && a.expected_selection.unwrap().branch_id@ == source_branch_id@
                && a.expected_selection.unwrap().start == selection.0 && a.expected_selection.unwrap().end == selection.1,
    {
        let branch_id = crate::text::clone_string(&source_branch_id);
        TasInputClipboardAction::CopyPattern(TasInputClipboardCopyAction {
            expected_project_digest,
            source_branch_id,
            source_movie_digest,
            start,
            pattern,
            events: Vec::new(),
            include_events: true,
            expected_selection: Some(TasInputSelection { branch_id, start: selection.0, end: selection.1 }),
        })
    }

    /// Pastes the clipboard of `clipboard_generation` at `cursor`.
    pub fn paste_at_cursor(
        expected_project_digest: TasDigest,
        target_branch_id: String,
        target_movie_digest: TasDigest,
        cursor: u64,
        clipboard_generation: u64,
    ) -> (r: Self)
        ensures
            r == TasInputClipboardAction::PasteAtCursor(TasInputClipboardPasteAction {
                expected_project_digest, target_branch_id, target_movie_digest, cursor, clipboard_generation,
            }),
    {
        TasInputClipboardAction::PasteAtCursor(TasInputClipboardPasteAction {
            expected_project_digest, target_branch_id, target_movie_digest, cursor, clipboard_generation,
        })
    }

    /// Inserts the clipboard of `clipboard_generation` before `cursor`.
    pub fn insert_at_cursor(
        expected_project_digest: TasDigest,
        target_branch_id: String,
        target_movie_digest: TasDigest,
        cursor: u64,
        clipboard_generation: u64,
    ) -> (r: Self)
        ensures
            r == TasInputClipboardAction::InsertAtCursor(TasInputClipboardPasteAction {
                expected_project_digest, target_branch_id, target_movie_digest, cursor, clipboard_generation,
            }),
    {
        TasInputClipboardAction::InsertAtCursor(TasInputClipboardPasteAction {
            expected_project_digest, target_branch_id, target_movie_digest, cursor, clipboard_generation,
        })
    }

    /// Tiles the clipboard of `clipboard_generation` across the selected rows
    /// `selection_start..selection_end` of branch `target_branch_id`.
    pub fn tile_selection(
        expected_project_digest: TasDigest,
        target_branch_id: String,
        target_movie_digest: TasDigest,
        selection_start: u64,
        selection_end: u64,
        clipboard_generation: u64,
    ) -> (r: Self)
        ensures
            r matches TasInputClipboardAction::TileAcrossSelection(a) && a.expected_project_digest == expected_project_digest
                && a.target_branch_id == target_branch_id && a.target_movie_digest == target_movie_digest
                && a.selection.branch_id@ == target_branch_id@ && a.selection.start == selection_start
                && a.selection.end == selection_end && a.clipboard_generation == clipboard_generation,
    {
        let branch_id = crate::text::clone_string(&target_branch_id);
        TasInputClipboardAction::TileAcrossSelection(TasInputClipboardTileAction {
            expected_project_digest,
            target_branch_id,
            target_movie_digest,
            selection: TasInputSelection { branch_id, start: selection_start, end: selection_end },
            clipboard_generation,
        })
    }
}

/// The selected branch's events after a run with `relative` events is pasted
/// over `start..end`: the events outside the run, then the pasted ones.
pub open spec fn pasted_events(s: SessionModel, start: u64, end: u64, relative: Seq<ReplayEventModel>) -> Seq<ReplayEventModel> {
    events_outside(s.branch().events, start, end) + shifted_by(relative, start)
}

/// `n` is `s` after the selected branch took `frames` and `events` with the
/// cursor kept: unchanged when it already held them.
pub open spec fn content_applied(s: SessionModel, n: SessionModel, frames: Seq<TasInputFrame>, events: Seq<ReplayEventModel>, cursor: u64) -> bool {
    if frames == s.frames() && events == s.branch().events && cursor == s.cursor() {
        n == s
    } else {
        s.committed(
            n,
            SnapshotModel {
                project: with_branch_content(s.current.project, s.current.selected, frames, events, s.next_generation),
                cursor,
                ..s.current
            },
        )
    }
}

/// What pasting a run with events at `start` needs beyond the run's own checks.
pub open spec fn paste_events_ok(s: SessionModel, start: u64, end: u64, relative: Seq<ReplayEventModel>) -> bool {
    let identity = s.current.project.identity;
    &&& copyable_events(identity, events_within(s.branch().events, start, end))
    &&& copyable_events(identity, relative)
    &&& shift_fits(relative, start)
    &&& timeline_state(canonical_order(pasted_events(s, start, end, relative)), s.frames().len() as u64, spec_project_media_id(identity)) is Some
    &&& forall|k: int| 0 <= k < pasted_events(s, start, end, relative).len()
        ==> (#[trigger] pasted_events(s, start, end, relative)[k]).frame() <= s.frames().len()
}

/// Pasting a run copied with its events back where it was copied from, on
/// the unchanged branch, gives back the branch's frames and the same events.
pub proof fn law_paste_back_restores_run(s: SessionModel, start: u64, len: u64)
    requires
        start + len <= s.frames().len(),
    ensures
        splice_pattern(s.frames(), start as int, s.frames().subrange(start as int, start + len)) == s.frames(),
        pasted_events(s, start, (start + len) as u64, rebased(events_within(s.branch().events, start, (start + len) as u64), start))
            .to_multiset() == s.branch().events.to_multiset(),
{
    broadcast use vstd::seq_lib::lemma_multiset_commutative;

    let end = (start + len) as u64;
    let p = s.frames().subrange(start as int, start + len);
    crate::editor_edits::lemma_splice_same(s.frames(), start as int, p);
    crate::clipboard::lemma_rebase_then_shift(s.branch().events, start, end);
    crate::clipboard::lemma_split_keeps_events(s.branch().events, start, end);
}

impl TasEditorWindowState {
    /// Lays `pattern` over the selected branch from `start` and replaces the
    /// run's events by `relative` (moved to the run), as one recorded edit.
    pub fn apply_pattern_with_events(
        &mut self,
        witness: &TasPatternWitness,
        start: u64,
        pattern: &TasInputPattern,
        relative: &Vec<ReplayEvent>,
    ) -> (r: Result<bool, TasEditorError>)
        requires
            old(self).wf(),
        ensures
            final(self).wf(),
            final(self).recording == old(self).recording,
            old(self).session is None ==> r == Err::<bool, TasEditorError>(TasEditorError::NoProject),
            old(self).session is Some ==> final(self).session is Some,
            r is Err ==> (old(self).session is Some ==> final(self).session is Some
                && final(self).session.unwrap()@ == old(self).session.unwrap()@),
            old(self).session is Some ==> ({
                let s = old(self).session.unwrap()@;
                let end = (start + pattern@.len()) as u64;
                let frames = splice_pattern(s.frames(), start as int, pattern@);
                let events = canonical_order(pasted_events(s, start, end, events_view(relative@)));
                &&& spec_run_refusal(s, *witness, start, pattern@) is Some ==> r == Err::<bool, TasEditorError>(
                    spec_run_refusal(s, *witness, start, pattern@).unwrap())
                &&& r is Ok ==> {
                    &&& spec_run_refusal(s, *witness, start, pattern@) is None
                    &&& (run_changes(s, start, pattern@) ==> run_authorable(s, pattern@))
                    &&& paste_events_ok(s, start, end, events_view(relative@))
                    &&& content_applied(s, final(self).session.unwrap()@, frames, events, s.cursor())
                    &&& final(self).timeline_selection.rows == Some((start, (end - 1) as u64))
                }
                &&& (spec_run_refusal(s, *witness, start, pattern@) is None
                    && (run_changes(s, start, pattern@) ==> run_authorable(s, pattern@))
                    && paste_events_ok(s, start, end, events_view(relative@))
                    && s.next_generation < u64::MAX) ==> r is Ok
            }),
    {
        let session = match &self.session {
            Some(s) => s,
            None => return Err(TasEditorError::NoProject),
        };
        let ghost s0 = session@;
        match check_witness(session, witness) {
            Ok(()) => {},
            Err(e) => return Err(e),
        }
        let len = pattern.frames.len();
        if len == 0 || len as u64 > MAX_PROJECT_FRAMES {
            return Err(TasEditorError::Pattern(TasPatternError::InvalidLength));
        }
        let count = session.frame_count();
        if start > count || len as u64 > count - start {
            return Err(TasEditorError::Pattern(TasPatternError::OutsideBranch));
        }
        let end = start + len as u64;
        let branch = session.selected_branch();
        let current = match branch.input_pattern(start, len as u64) {
            Ok(p) => p,
            Err(e) => return Err(TasEditorError::Pattern(e)),
        };
        proof {
            crate::editor_edits::lemma_splice_same(s0.frames(), start as int, pattern@);
        }
        if !current.same_as(pattern) {
            match first_unauthorable(session, pattern) {
                Some(e) => return Err(TasEditorError::SpecialInput(e)),
                None => {},
            }
        }
        let identity = &session.project().identity;
        let (inside, outside) = split_events(&branch.events, start, end);
        match validate_copied_events(identity, &inside) {
            Ok(()) => {},
            Err(e) => return Err(TasEditorError::Clipboard(e)),
        }
        match validate_copied_events(identity, relative) {
            Ok(()) => {},
            Err(e) => return Err(TasEditorError::Clipboard(e)),
        }
        let moved = match shift_events(relative, start) {
            Some(v) => v,
            None => return Err(TasEditorError::Clipboard(TasClipboardError::EventFrameOverflow)),
        };
        let mut events = outside;
        let mut k: usize = 0;
        let ghost base = events_view(events@);
        while k < moved.len()
            invariant
                0 <= k <= moved@.len(),
                events_view(events@) == base + events_view(moved@).take(k as int),
            decreases moved@.len() - k,
        {
            let e = moved[k].clone_event();
            let ghost before = events@;
            let ghost ev = e@;
            events.push(e);
            proof {
                assert(events_view(events@) =~= events_view(before).push(ev));
                assert(events_view(moved@)[k as int] == moved@[k as int]@);
                assert(events_view(moved@).take(k + 1) =~= events_view(moved@).take(k as int).push(moved@[k as int]@));
                assert(events_view(events@) =~= base + events_view(moved@).take(k + 1));
            }
            k += 1;
        }
        proof {
            assert(events_view(moved@).take(moved@.len() as int) =~= events_view(moved@));
            assert(events_view(events@) == pasted_events(s0, start, end, events_view(relative@)));
        }
        let sorted = canonicalize_events(&events);
        let media_id = project_media_id(identity);
        match validate_timeline(&sorted, count, &media_id) {
            Ok(()) => {},
            Err(_) => return Err(TasEditorError::Clipboard(TasClipboardError::InvalidTimeline)),
        }
        let frames = splice_frames(&branch.frames, start as usize, &pattern.frames);
        let cursor = session.cursor();
        let mut session = match self.session.take() {
            Some(s) => s,
            None => return Err(TasEditorError::NoProject),
        };
        proof {
            assert(frames@.len() == s0.frames().len());
        }
        match session.replace_selected_content(frames, &events, cursor) {
            Ok(outcome) => {
                proof {
                    lemma_recording_stays_ok(self.recording, s0, session@);
                }
                self.session = Some(session);
                self.timeline_selection.select_range(start, end);
                if outcome.changed {
                    self.execution_preview = None;
                    self.queue_linked_edit_reconstruction(start, end);
                }
                Ok(outcome.changed)
            },
            Err(e) => {
                self.session = Some(session);
                Err(TasEditorError::Edit(e))
            },
        }
    }
}

/// Whether the clipboard's `length` frames fit over the branch from
/// `cursor` (a fixed-length paste), and whether they may be inserted there
/// without passing the project frame limit.
pub fn clipboard_fits(cursor: u64, length: u64, frame_count: u64) -> (r: (bool, bool))
    ensures
        r.0 == (cursor + length <= frame_count),
        r.1 == (cursor + length <= crate::limits::MAX_PROJECT_FRAMES),
{
    match cursor.checked_add(length) {
        Some(end) => (end <= frame_count, end <= crate::limits::MAX_PROJECT_FRAMES),
        None => (false, false),
    }
}

/// The copy of the selection `selection` that the clipboard panel asks for:
/// the selected frames of its branch with the events at their boundaries.
pub fn copy_selection_action(session: &TasEditorSession, selection: &TasInputSelection) -> (r: Result<TasInputClipboardAction, TasEditorError>)
    requires
        session@.wf(),
    ensures
        ({
            let s = session@;
            let p = s.current.project;
            let len = selection.end - selection.start;
            if selection.end <= selection.start {
                r == Err::<TasInputClipboardAction, TasEditorError>(TasEditorError::InvalidSelection)
            } else if !p.has_branch(selection.branch_id@) {
                r == Err::<TasInputClipboardAction, TasEditorError>(TasEditorError::StaleBranch)
            } else {
                let b = p.branches[crate::project::branch_index_of(p.branches, selection.branch_id@).unwrap()];
                if !(len <= crate::limits::MAX_PROJECT_FRAMES) {
                    r == Err::<TasInputClipboardAction, TasEditorError>(TasEditorError::Pattern(TasPatternError::InvalidLength))
                } else if selection.end > b.frames.len() {
                    r == Err::<TasInputClipboardAction, TasEditorError>(TasEditorError::Pattern(TasPatternError::OutsideBranch))
                } else {
                    r matches Ok(TasInputClipboardAction::CopyPattern(a))
                        && a.expected_project_digest == TasDigest(p.edit_generation)
                        && a.source_branch_id@ == selection.branch_id@
                        && a.source_movie_digest == TasDigest(b.revision)
                        && a.start == selection.start
                        && a.pattern@ == b.frames.subrange(selection.start as int, selection.end as int)
                        && events_view(a.events@) == events_within(b.events, selection.start, selection.end)
                        && a.include_events
                        && a.expected_selection is Some
                        && a.expected_selection.unwrap().branch_id@ == selection.branch_id@
                        && a.expected_selection.unwrap().start == selection.start
                        && a.expected_selection.unwrap().end == selection.end
                }
            }
        }),
{
    if selection.end <= selection.start {
        return Err(TasEditorError::InvalidSelection);
    }
    let project = session.project();
    proof {
        crate::project::lemma_branch_index_of_member(session@.current.project.branches, session@.current.selected);
    }
    let branch = match project.branch(selection.branch_id.as_str()) {
        Some(b) => b,
        None => return Err(TasEditorError::StaleBranch),
    };
    let movie = match project.branch_movie_digest(selection.branch_id.as_str()) {
        Some(d) => d,
        None => return Err(TasEditorError::StaleBranch),
    };
    let pattern = match branch.input_pattern(selection.start, selection.end - selection.start) {
        Ok(p) => p,
        Err(e) => return Err(TasEditorError::Pattern(e)),
    };
    let (events, _) = split_events(&branch.events, selection.start, selection.end);
    let copy = TasInputSelection {
        branch_id: crate::text::clone_string(&selection.branch_id),
        start: selection.start,
        end: selection.end,
    };
    Ok(TasInputClipboardAction::copy_selection_with_events(
        session.project_content_digest(),
        movie,
        pattern,
        events,
        copy,
    ))
}

/// The events of the selected branch after a run of `len` frames with
/// `relative` events is inserted before frame `at`.
pub open spec fn inserted_events(s: SessionModel, at: u64, len: u64, relative: Seq<ReplayEventModel>) -> Seq<ReplayEventModel> {
    crate::timeline_edit::events_after_insert(s.branch().events, at, len) + shifted_by(relative, at)
}

/// Whether `sel` is the editor's selection as it stands on session `s`.
pub open spec fn is_current_selection(o: TasEditorWindowState, s: SessionModel, sel: Option<TasInputSelection>) -> bool {
    match crate::selection::spec_selected_range(o.timeline_selection.rows, s.frames().len() as u64) {
        None => sel is None,
        Some((start, end)) => sel is Some && sel.unwrap().branch_id@ == s.branch().id
            && sel.unwrap().start == start && sel.unwrap().end == end,
    }
}

/// The answer copying a run owes on session `s` given the editor's current
/// selection `sel`: the copy's refusals, an exhausted clipboard counter, or
/// success with its message.
pub open spec fn copy_answer(o: TasEditorWindowState, s: SessionModel, action: TasInputClipboardCopyAction, sel: Option<TasInputSelection>, r: Result<String, TasEditorError>) -> bool {
    let end = action.start + action.pattern@.len();
    match crate::clipboard::spec_copy_refusal(s, action, sel) {
        Some(e) => r == Err::<String, TasEditorError>(e),
        None => if o.input_clipboard.generation == u64::MAX {
            r == Err::<String, TasEditorError>(TasEditorError::Clipboard(TasClipboardError::GenerationOverflow))
        } else {
            r is Ok && r->Ok_0@ == "Copied input pattern "@ + crate::text::decimal(action.start as nat) + ".."@
                + crate::text::decimal(if end <= u64::MAX { end as nat } else { u64::MAX as nat })
                + " from branch "@ + action.source_branch_id@
        },
    }
}

/// What copying a run to the clipboard did.
pub open spec fn copy_outcome(o: TasEditorWindowState, n: TasEditorWindowState, action: TasInputClipboardCopyAction, r: Result<String, TasEditorError>) -> bool {
    &&& (o.session is Some ==> exists|sel: Option<TasInputSelection>| is_current_selection(o, o.session.unwrap()@, sel)
        && #[trigger] copy_answer(o, o.session.unwrap()@, action, sel, r))
    &&& (n.session == o.session)
    &&& (o.session is None ==> r == Err::<String, TasEditorError>(TasEditorError::NoProject))
    &&& (r is Ok ==> n.input_clipboard.entry is Some
                    && n.input_clipboard.entry.unwrap().pattern@ == action.pattern@
                    && n.input_clipboard.entry.unwrap().start == action.start
                    && n.input_clipboard.generation == o.input_clipboard.generation + 1)
    &&& (r is Err ==> n.input_clipboard == o.input_clipboard)
}

/// Why the clipboard cannot serve a request made at `generation`, if it
/// cannot: it changed since, or holds nothing.
pub open spec fn clipboard_refusal(c: crate::clipboard::TasInputClipboardState, generation: u64) -> Option<TasClipboardError> {
    if c.generation != generation {
        Some(TasClipboardError::Stale)
    } else if c.entry is None {
        Some(TasClipboardError::Empty)
    } else {
        None
    }
}

/// The witness of a paste or insert at the cursor.
pub open spec fn cursor_witness(action: TasInputClipboardPasteAction) -> TasPatternWitness {
    TasPatternWitness {
        expected_project_digest: action.expected_project_digest,
        target_branch_id: action.target_branch_id,
        target_movie_digest: action.target_movie_digest,
        expected_cursor: Some(action.cursor),
    }
}

/// The answers a paste at the cursor owes: the refusals of the clipboard,
/// of the project and of the run, and success once none applies and the
/// pasted content may stand.
pub open spec fn paste_answer(o: TasEditorWindowState, action: TasInputClipboardPasteAction, r: Result<String, TasEditorError>) -> bool {
    match clipboard_refusal(o.input_clipboard, action.clipboard_generation) {
        Some(e) => r == Err::<String, TasEditorError>(TasEditorError::Clipboard(e)),
        None => match o.session {
            None => r == Err::<String, TasEditorError>(TasEditorError::NoProject),
            Some(session) => {
                let s = session@;
                let e = o.input_clipboard.entry.unwrap();
                let p = e.pattern@;
                let w = cursor_witness(action);
                let end = (action.cursor + p.len()) as u64;
                &&& spec_run_refusal(s, w, action.cursor, p) is Some ==> r == Err::<String, TasEditorError>(
                    spec_run_refusal(s, w, action.cursor, p).unwrap())
                &&& !e.include_events ==> (r is Ok ==> r->Ok_0@ == if run_changes(s, action.cursor, p) {
                    "Pasted input pattern"@
                } else {
                    "Input pattern made no change"@
                })
                &&& !e.include_events ==> (spec_run_refusal(s, w, action.cursor, p) is None
                    && (run_changes(s, action.cursor, p) ==> run_authorable(s, p) && s.next_generation < u64::MAX) ==> r is Ok)
                &&& e.include_events ==> (spec_run_refusal(s, w, action.cursor, p) is None
                    && (run_changes(s, action.cursor, p) ==> run_authorable(s, p))
                    && paste_events_ok(s, action.cursor, end, events_view(e.events@))
                    && s.next_generation < u64::MAX ==> r is Ok)
            },
        },
    }
}

/// What pasting the clipboard at the cursor did.
pub open spec fn paste_outcome(o: TasEditorWindowState, n: TasEditorWindowState, action: TasInputClipboardPasteAction, r: Result<String, TasEditorError>) -> bool {
    &&& paste_answer(o, action, r)
    &&& (r is Err ==> (o.session is Some ==> n.session is Some
                    && n.session.unwrap()@ == o.session.unwrap()@))
    &&& (r is Ok ==> o.input_clipboard.generation == action.clipboard_generation
                    && o.input_clipboard.entry is Some && o.session is Some && n.session is Some
                    && ({
                        let s = o.session.unwrap()@;
                        let e = o.input_clipboard.entry.unwrap();
                        &&& s.cursor() == action.cursor
                        &&& !e.include_events ==> crate::editor_edits::run_applied(s, n.session.unwrap()@, action.cursor, e.pattern@)
                        &&& e.include_events ==> content_applied(s, n.session.unwrap()@,
                            splice_pattern(s.frames(), action.cursor as int, e.pattern@),
                            canonical_order(pasted_events(s, action.cursor, (action.cursor + e.pattern@.len()) as u64, events_view(e.events@))),
                            s.cursor())
                    }))
}

/// The answer an insert of the clipboard's `p` frames and `relative` events
/// at the cursor owes on session `s`: its refusals in the order they are
/// checked, then success.
pub open spec fn insert_answer(s: SessionModel, action: TasInputClipboardPasteAction, p: Seq<TasInputFrame>, relative: Seq<ReplayEventModel>, r: Result<String, TasEditorError>) -> bool {
    let at = action.cursor;
    let count = s.frames().len();
    let events = inserted_events(s, at, p.len() as u64, relative);
    if spec_witness_refusal(s, cursor_witness(action)) is Some {
        r == Err::<String, TasEditorError>(spec_witness_refusal(s, cursor_witness(action)).unwrap())
    } else if p.len() == 0 || p.len() > MAX_PROJECT_FRAMES {
        r == Err::<String, TasEditorError>(TasEditorError::Pattern(TasPatternError::InvalidLength))
    } else if !run_authorable(s, p) {
        r matches Err(TasEditorError::SpecialInput(_))
    } else if !copyable_events(s.current.project.identity, relative) {
        r == Err::<String, TasEditorError>(TasEditorError::Clipboard(TasClipboardError::UneditableEvents))
    } else if !insert_shift_fits(s.branch().events, at, p.len() as u64) || !shift_fits(relative, at) {
        r == Err::<String, TasEditorError>(TasEditorError::Clipboard(TasClipboardError::EventFrameOverflow))
    } else if at > count {
        r == Err::<String, TasEditorError>(TasEditorError::Edit(TasEditError::OutsideBranch))
    } else if count + p.len() > MAX_PROJECT_FRAMES {
        r == Err::<String, TasEditorError>(TasEditorError::Edit(TasEditError::FrameLimit))
    } else if !(forall|k: int| 0 <= k < events.len() ==> (#[trigger] events[k]).frame() <= count + p.len()) {
        r == Err::<String, TasEditorError>(TasEditorError::Edit(TasEditError::InvalidEvents))
    } else if s.next_generation == u64::MAX {
        r == Err::<String, TasEditorError>(TasEditorError::Edit(TasEditError::GenerationExhausted))
    } else {
        r is Ok && r->Ok_0@ == "Inserted copied input frames"@
    }
}

/// What inserting the clipboard before the cursor did.
pub open spec fn insert_outcome(o: TasEditorWindowState, n: TasEditorWindowState, action: TasInputClipboardPasteAction, r: Result<String, TasEditorError>) -> bool {
    &&& (match clipboard_refusal(o.input_clipboard, action.clipboard_generation) {
        Some(e) => r == Err::<String, TasEditorError>(TasEditorError::Clipboard(e)),
        None => match o.session {
            None => r == Err::<String, TasEditorError>(TasEditorError::NoProject),
            Some(session) => insert_answer(session@, action, o.input_clipboard.entry.unwrap().pattern@,
                events_view(o.input_clipboard.entry.unwrap().events@), r),
        },
    })
    &&& (r is Err ==> (o.session is Some ==> n.session is Some
                    && n.session.unwrap()@ == o.session.unwrap()@))
    &&& (r is Ok ==> o.input_clipboard.generation == action.clipboard_generation
                    && o.input_clipboard.entry is Some && o.session is Some && n.session is Some
                    && ({
                        let s = o.session.unwrap()@;
                        let e = o.input_clipboard.entry.unwrap();
                        let at = action.cursor;
                        &&& crate::editor_edits::spec_witness_refusal(s, TasPatternWitness {
                            expected_project_digest: action.expected_project_digest,
                            target_branch_id: action.target_branch_id,
                            target_movie_digest: action.target_movie_digest,
                            expected_cursor: Some(at),
                        }) is None
                        &&& run_authorable(s, e.pattern@)
                        &&& copyable_events(s.current.project.identity, events_view(e.events@))
                        &&& content_applied(s, n.session.unwrap()@,
                            s.frames().take(at as int) + e.pattern@ + s.frames().skip(at as int),
                            canonical_order(inserted_events(s, at, e.pattern@.len() as u64, events_view(e.events@))),
                            at)
                        &&& n.timeline_selection.rows == Some((at, (at + e.pattern@.len() - 1) as u64))
                    }))
}

impl TasEditorWindowState {
    /// Copies a run of the selected branch to the clipboard.
    pub fn copy_to_clipboard(&mut self, action: TasInputClipboardCopyAction) -> (r: Result<String, TasEditorError>)
        requires
            old(self).wf(),
        ensures
            final(self).wf(),
            final(self).recording == old(self).recording,
            copy_outcome(*old(self), *final(self), action, r),
    {
        let session = match &self.session {
            Some(s) => s,
            None => return Err(TasEditorError::NoProject),
        };
        let selection = self.timeline_selection.snapshot(session);
        let start = action.start;
        let len = action.pattern.frames.len() as u64;
        let mut source = crate::text::clone_string(&action.source_branch_id);
        let ghost sel = selection;
        let ghost act = action;
        let ghost s0 = session@;
        match self.input_clipboard.copy(action, session, selection) {
            Ok(()) => {},
            Err(e) => {
                proof {
                    assert(copy_answer(*old(self), s0, act, sel, Err::<String, TasEditorError>(e)));
                }
                return Err(e);
            },
        }
        let mut message = string_of("Copied input pattern ");
        push_decimal(&mut message, start);
        push_str(&mut message, "..");
        push_decimal(&mut message, if start <= u64::MAX - len { start + len } else { u64::MAX });
        push_str(&mut message, " from branch ");
        push_str(&mut message, source.as_str());
        proof {
            assert(copy_answer(*old(self), s0, act, sel, Ok::<String, TasEditorError>(message)));
        }
        Ok(message)
    }

    /// Pastes the clipboard over the frames from the cursor, with its events
    /// when it was copied with them.
    pub fn paste_clipboard_at_cursor(&mut self, action: TasInputClipboardPasteAction) -> (r: Result<String, TasEditorError>)
        requires
            old(self).wf(),
        ensures
            final(self).wf(),
            final(self).recording == old(self).recording,
            paste_outcome(*old(self), *final(self), action, r),
    {
        let (pattern, events, include_events) = match self.input_clipboard.entry(action.clipboard_generation) {
            Ok(e) => (e.pattern.clone_pattern(), clone_events(&e.events), e.include_events),
            Err(e) => return Err(TasEditorError::Clipboard(e)),
        };
        let witness = TasPatternWitness {
            expected_project_digest: action.expected_project_digest,
            target_branch_id: action.target_branch_id,
            target_movie_digest: action.target_movie_digest,
            expected_cursor: Some(action.cursor),
        };
        let result = if include_events {
            self.apply_pattern_with_events(&witness, action.cursor, &pattern, &events)
        } else {
            self.apply_pattern_run(&witness, action.cursor, &pattern)
        };
        match result {
            Ok(true) => Ok(string_of("Pasted input pattern")),
            Ok(false) => Ok(string_of("Input pattern made no change")),
            Err(e) => Err(e),
        }
    }

    /// Inserts the clipboard's frames (and events) before the cursor.
    pub fn insert_clipboard_at_cursor(&mut self, action: TasInputClipboardPasteAction) -> (r: Result<String, TasEditorError>)
        requires
            old(self).wf(),
        ensures
            final(self).wf(),
            final(self).recording == old(self).recording,
            insert_outcome(*old(self), *final(self), action, r),
    {
        let (pattern, relative) = match self.input_clipboard.entry(action.clipboard_generation) {
            Ok(e) => (e.pattern.clone_pattern(), clone_events(&e.events)),
            Err(e) => return Err(TasEditorError::Clipboard(e)),
        };
        let session = match &self.session {
            Some(s) => s,
            None => return Err(TasEditorError::NoProject),
        };
        let ghost s0 = session@;
        let at = action.cursor;
        let witness = TasPatternWitness {
            expected_project_digest: action.expected_project_digest,
            target_branch_id: action.target_branch_id,
            target_movie_digest: action.target_movie_digest,
            expected_cursor: Some(at),
        };
        match check_witness(session, &witness) {
            Ok(()) => {},
            Err(e) => return Err(e),
        }
        let len = pattern.frames.len();
        if len == 0 || len as u64 > MAX_PROJECT_FRAMES {
            return Err(TasEditorError::Pattern(TasPatternError::InvalidLength));
        }
        match first_unauthorable(session, &pattern) {
            Some(e) => return Err(TasEditorError::SpecialInput(e)),
            None => {},
        }
        match validate_copied_events(&session.project().identity, &relative) {
            Ok(()) => {},
            Err(e) => return Err(TasEditorError::Clipboard(e)),
        }
        let branch = session.selected_branch();
        let shifted = match crate::timeline_edit::shift_events_for_insert(&branch.events, at, len as u64) {
            Some(v) => v,
            None => return Err(TasEditorError::Clipboard(TasClipboardError::EventFrameOverflow)),
        };
        let moved = match shift_events(&relative, at) {
            Some(v) => v,
            None => return Err(TasEditorError::Clipboard(TasClipboardError::EventFrameOverflow)),
        };
        let mut events = shifted;
        let ghost base = events_view(events@);
        let mut k: usize = 0;
        while k < moved.len()
            invariant
                0 <= k <= moved@.len(),
                events_view(events@) == base + events_view(moved@).take(k as int),
            decreases moved@.len() - k,
        {
            let e = moved[k].clone_event();
            let ghost before = events@;
            let ghost ev = e@;
            events.push(e);
            proof {
                assert(events_view(events@) =~= events_view(before).push(ev));
                assert(events_view(moved@)[k as int] == moved@[k as int]@);
                assert(events_view(moved@).take(k + 1) =~= events_view(moved@).take(k as int).push(moved@[k as int]@));
                assert(events_view(events@) =~= base + events_view(moved@).take(k + 1));
            }
            k += 1;
        }
        proof {
            assert(events_view(moved@).take(moved@.len() as int) =~= events_view(moved@));
            assert(s0.frames().len() <= MAX_PROJECT_FRAMES);
        }
        let count = session.frame_count();
        if at > count {
            return Err(TasEditorError::Edit(crate::session::TasEditError::OutsideBranch));
        }
        let frames = insert_run(&branch.frames, at as usize, &pattern.frames);
        let mut session = match self.session.take() {
            Some(s) => s,
            None => return Err(TasEditorError::NoProject),
        };
        match session.replace_selected_content(frames, &events, at) {
            Ok(outcome) => {
                proof {
                    lemma_recording_stays_ok(self.recording, s0, session@);
                }
                self.session = Some(session);
                self.timeline_selection.select_range(at, at + len as u64);
                self.execution_preview = None;
                if outcome.changed {
                    Ok(string_of("Inserted copied input frames"))
                } else {
                    Ok(string_of("Input pattern made no change"))
                }
            },
            Err(e) => {
                self.session = Some(session);
                Err(TasEditorError::Edit(e))
            },
        }
    }
}

/// The answer laying `run` at `start` owes once the request's own checks
/// passed and the run fits the branch: a refusal of a frame the project may
/// not hold, an exhausted history counter, or success with `changed` as its
/// message when the frames change and `unchanged` when they do not.
pub open spec fn run_answer(s: SessionModel, start: u64, run: Seq<TasInputFrame>, changed: Seq<char>, unchanged: Seq<char>, r: Result<String, TasEditorError>) -> bool {
    if run_changes(s, start, run) && !run_authorable(s, run) {
        r matches Err(TasEditorError::SpecialInput(_))
    } else if run_changes(s, start, run) && s.next_generation == u64::MAX {
        r == Err::<String, TasEditorError>(TasEditorError::Edit(TasEditError::GenerationExhausted))
    } else {
        r is Ok && r->Ok_0@ == if run_changes(s, start, run) { changed } else { unchanged }
    }
}

/// The answer tiling the clipboard across the selection owes: its refusals
/// in the order they are checked, then the run's own answer.
pub open spec fn tile_answer(o: TasEditorWindowState, action: TasInputClipboardTileAction, r: Result<String, TasEditorError>) -> bool {
    match o.session {
        None => r == Err::<String, TasEditorError>(TasEditorError::NoProject),
        Some(session) => {
            let s = session@;
            let sel = action.selection;
            let w = crate::editor_edits::selection_witness(action.expected_project_digest, action.target_branch_id, action.target_movie_digest);
            if crate::editor_edits::spec_selection_edit_refusal(o, s, w, sel) is Some {
                r == Err::<String, TasEditorError>(crate::editor_edits::spec_selection_edit_refusal(o, s, w, sel).unwrap())
            } else if clipboard_refusal(o.input_clipboard, action.clipboard_generation) is Some {
                r == Err::<String, TasEditorError>(TasEditorError::Clipboard(
                    clipboard_refusal(o.input_clipboard, action.clipboard_generation).unwrap()))
            } else if o.input_clipboard.entry.unwrap().events@.len() > 0 {
                r == Err::<String, TasEditorError>(TasEditorError::Clipboard(TasClipboardError::EventsCannotTile))
            } else if o.input_clipboard.entry.unwrap().pattern@.len() == 0 || sel.end - sel.start > MAX_PROJECT_FRAMES {
                r == Err::<String, TasEditorError>(TasEditorError::Pattern(TasPatternError::InvalidLength))
            } else {
                run_answer(s, sel.start, crate::pattern::spec_tile(o.input_clipboard.entry.unwrap().pattern@, (sel.end - sel.start) as nat),
                    "Tiled input pattern across the selection"@, "Input pattern made no change"@, r)
            }
        },
    }
}

/// What tiling the clipboard across the selection did.
pub open spec fn tile_outcome(o: TasEditorWindowState, n: TasEditorWindowState, action: TasInputClipboardTileAction, r: Result<String, TasEditorError>) -> bool {
    &&& tile_answer(o, action, r)
    &&& (r is Err ==> (o.session is Some ==> n.session is Some
                    && n.session.unwrap()@ == o.session.unwrap()@))
    &&& (r is Ok ==> o.input_clipboard.generation == action.clipboard_generation
                    && o.input_clipboard.entry is Some && o.session is Some && n.session is Some
                    && ({
                        let s = o.session.unwrap()@;
                        let e = o.input_clipboard.entry.unwrap();
                        let sel = action.selection;
                        let run = crate::pattern::spec_tile(e.pattern@, (sel.end - sel.start) as nat);
                        &&& crate::editor_edits::spec_selection_edit_refusal(o, s,
                            crate::editor_edits::selection_witness(action.expected_project_digest, action.target_branch_id, action.target_movie_digest),
                            sel) is None
                        &&& e.events@.len() == 0
                        &&& crate::editor_edits::run_applied(s, n.session.unwrap()@, sel.start, run)
                    }))
}

/// The answer laying the checked controls of `source` over the rows from
/// `start` owes: a run that is empty, too long or past the branch's end is
/// refused, otherwise the overlaid run's own answer.
pub open spec fn masked_run_answer(s: SessionModel, start: u64, source: Seq<TasInputFrame>, mask: TasDigitalInputMask, changed: Seq<char>, r: Result<String, TasEditorError>) -> bool {
    if source.len() == 0 || source.len() > MAX_PROJECT_FRAMES {
        r == Err::<String, TasEditorError>(TasEditorError::Pattern(TasPatternError::InvalidLength))
    } else if start + source.len() > s.frames().len() {
        r == Err::<String, TasEditorError>(TasEditorError::Pattern(TasPatternError::OutsideBranch))
    } else {
        run_answer(s, start, crate::pattern::spec_overlay(s.frames().subrange(start as int, start + source.len()), source, mask),
            changed, "Control paste made no change"@, r)
    }
}

/// The answer pasting the checked controls owes: its refusals in the order
/// they are checked, then the overlaid run's own answer.
pub open spec fn masked_paste_answer(o: TasEditorWindowState, action: TasMaskedPasteAction, r: Result<String, TasEditorError>) -> bool {
    match o.session {
        None => r == Err::<String, TasEditorError>(TasEditorError::NoProject),
        Some(session) => {
            let s = session@;
            let w = crate::editor_edits::selection_witness(action.expected_project_digest, action.target_branch_id, action.target_movie_digest);
            let e = o.input_clipboard.entry.unwrap();
            if spec_witness_refusal(s, w) is Some {
                r == Err::<String, TasEditorError>(spec_witness_refusal(s, w).unwrap())
            } else if spec_validate_mask(s.current.project.identity, action.mask) is Err {
                r == Err::<String, TasEditorError>(TasEditorError::Mask(spec_validate_mask(s.current.project.identity, action.mask)->Err_0))
            } else if clipboard_refusal(o.input_clipboard, action.clipboard_generation) is Some {
                r == Err::<String, TasEditorError>(TasEditorError::Clipboard(
                    clipboard_refusal(o.input_clipboard, action.clipboard_generation).unwrap()))
            } else {
                match action.destination {
                    TasMaskedPasteDestination::Cursor(c) => if s.cursor() != c {
                        r == Err::<String, TasEditorError>(TasEditorError::StaleCursor)
                    } else {
                        masked_run_answer(s, c, e.pattern@, action.mask, "Pasted checked controls"@, r)
                    },
                    TasMaskedPasteDestination::Selection(sel) => if !(crate::editor_edits::selection_current(o, s, sel)
                        && sel.branch_id@ == action.target_branch_id@) {
                        r == Err::<String, TasEditorError>(TasEditorError::StaleSelection)
                    } else if !(sel.start < sel.end && sel.end <= s.frames().len()) {
                        r == Err::<String, TasEditorError>(TasEditorError::InvalidSelection)
                    } else if e.pattern@.len() == 0 || sel.end - sel.start > MAX_PROJECT_FRAMES {
                        r == Err::<String, TasEditorError>(TasEditorError::Pattern(TasPatternError::InvalidLength))
                    } else {
                        masked_run_answer(s, sel.start, crate::pattern::spec_tile(e.pattern@, (sel.end - sel.start) as nat),
                            action.mask, "Tiled checked controls"@, r)
                    },
                }
            }
        },
    }
}

/// What pasting the checked controls did.
pub open spec fn masked_paste_outcome(o: TasEditorWindowState, n: TasEditorWindowState, action: TasMaskedPasteAction, r: Result<String, TasEditorError>) -> bool {
    &&& masked_paste_answer(o, action, r)
    &&& (r is Err ==> (o.session is Some ==> n.session is Some
                    && n.session.unwrap()@ == o.session.unwrap()@))
    &&& (r is Ok ==> o.input_clipboard.generation == action.clipboard_generation
                    && o.input_clipboard.entry is Some && o.session is Some && n.session is Some
                    && ({
                        let s = o.session.unwrap()@;
                        let e = o.input_clipboard.entry.unwrap();
                        let (start, source) = match action.destination {
                            TasMaskedPasteDestination::Cursor(c) => (c, e.pattern@),
                            TasMaskedPasteDestination::Selection(sel) => (sel.start, crate::pattern::spec_tile(e.pattern@, (sel.end - sel.start) as nat)),
                        };
                        let run = crate::pattern::spec_overlay(s.frames().subrange(start as int, start + source.len()), source, action.mask);
                        &&& spec_validate_mask(s.current.project.identity, action.mask) is Ok
                        &&& (action.destination matches TasMaskedPasteDestination::Cursor(c) ==> s.cursor() == c)
                        &&& (action.destination matches TasMaskedPasteDestination::Selection(sel)
                            ==> crate::editor_edits::selection_current(o, s, sel))
                        &&& crate::editor_edits::run_applied(s, n.session.unwrap()@, start, run)
                    }))
}

/// What an input clipboard or range-edit action did.
pub open spec fn input_clipboard_outcome(o: TasEditorWindowState, n: TasEditorWindowState, action: TasInputClipboardAction, r: Result<String, TasEditorError>) -> bool {
    &&& (n.recording == o.recording)
    &&& (r is Err ==> (o.session is Some ==> n.session is Some
                    && n.session.unwrap()@ == o.session.unwrap()@))
    &&& (match action {
                    TasInputClipboardAction::CopyPattern(a) => copy_outcome(o, n, a, r),
                    TasInputClipboardAction::PasteAtCursor(a) => paste_outcome(o, n, a, r),
                    TasInputClipboardAction::InsertAtCursor(a) => insert_outcome(o, n, a, r),
                    TasInputClipboardAction::TileAcrossSelection(a) => tile_outcome(o, n, a, r),
                    TasInputClipboardAction::PasteMaskedControls(a) => masked_paste_outcome(o, n, a, r),
                    TasInputClipboardAction::ApplyDigitalTransform(a) => crate::editor_edits::transform_outcome(o, n, a, r),
                    TasInputClipboardAction::ApplyDigitalAutofire(a) => crate::editor_edits::autofire_outcome(o, n, a, r),
                    TasInputClipboardAction::ApplySpecialRangeTransform(a) => crate::editor_edits::special_range_outcome(o, n, a, r),
                })
}

impl TasEditorWindowState {
    /// Repeats the clipboard across the selected rows, as one edit.
    pub fn tile_clipboard(&mut self, action: TasInputClipboardTileAction) -> (r: Result<String, TasEditorError>)
        requires
            old(self).wf(),
        ensures
            final(self).wf(),
            final(self).recording == old(self).recording,
            tile_outcome(*old(self), *final(self), action, r),
    {
        let witness = TasPatternWitness {
            expected_project_digest: action.expected_project_digest,
            target_branch_id: action.target_branch_id,
            target_movie_digest: action.target_movie_digest,
            expected_cursor: None,
        };
        if self.session.is_none() {
            return Err(TasEditorError::NoProject);
        }
        match self.check_selection_edit(&witness, &action.selection) {
            Ok(()) => {},
            Err(e) => return Err(e),
        }
        let pattern = match self.input_clipboard.entry(action.clipboard_generation) {
            Ok(e) => {
                if e.events.len() > 0 {
                    return Err(TasEditorError::Clipboard(TasClipboardError::EventsCannotTile));
                }
                match e.pattern.tile_to_length(action.selection.end - action.selection.start) {
                    Ok(p) => p,
                    Err(err) => return Err(TasEditorError::Pattern(err)),
                }
            },
            Err(e) => return Err(TasEditorError::Clipboard(e)),
        };
        match self.apply_pattern_run(&witness, action.selection.start, &pattern) {
            Ok(true) => Ok(string_of("Tiled input pattern across the selection")),
            Ok(false) => Ok(string_of("Input pattern made no change")),
            Err(e) => Err(e),
        }
    }

    /// Pastes only the checked controls of the clipboard at the cursor, or
    /// tiles them across the selection, as one edit.
    pub fn apply_masked_paste(&mut self, action: TasMaskedPasteAction) -> (r: Result<String, TasEditorError>)
        requires
            old(self).wf(),
        ensures
            final(self).wf(),
            final(self).recording == old(self).recording,
            masked_paste_outcome(*old(self), *final(self), action, r),
    {
        let session = match &self.session {
            Some(s) => s,
            None => return Err(TasEditorError::NoProject),
        };
        let ghost s0 = session@;
        let expected_cursor = match &action.destination {
            TasMaskedPasteDestination::Cursor(c) => Some(*c),
            TasMaskedPasteDestination::Selection(_) => None,
        };
        let witness = TasPatternWitness {
            expected_project_digest: action.expected_project_digest,
            target_branch_id: action.target_branch_id,
            target_movie_digest: action.target_movie_digest,
            expected_cursor: None,
        };
        match check_witness(session, &witness) {
            Ok(()) => {},
            Err(e) => return Err(e),
        }
        match validate_mask(&session.project().identity, action.mask) {
            Ok(()) => {},
            Err(e) => return Err(TasEditorError::Mask(e)),
        }
        let entry = match self.input_clipboard.entry(action.clipboard_generation) {
            Ok(e) => e,
            Err(e) => return Err(TasEditorError::Clipboard(e)),
        };
        let (start, source) = match &action.destination {
            TasMaskedPasteDestination::Cursor(c) => {
                if session.cursor() != *c {
                    return Err(TasEditorError::StaleCursor);
                }
                (*c, entry.pattern.clone_pattern())
            },
            TasMaskedPasteDestination::Selection(sel) => {
                let current = match self.timeline_selection.snapshot(session) {
                    Some(cur) => cur.same_as(sel),
                    None => false,
                };
                if !current || !crate::text::str_eq(sel.branch_id.as_str(), witness.target_branch_id.as_str()) {
                    return Err(TasEditorError::StaleSelection);
                }
                if sel.start >= sel.end || sel.end > session.frame_count() {
                    return Err(TasEditorError::InvalidSelection);
                }
                match entry.pattern.tile_to_length(sel.end - sel.start) {
                    Ok(p) => (sel.start, p),
                    Err(e) => return Err(TasEditorError::Pattern(e)),
                }
            },
        };
        let current = match session.selected_branch().input_pattern(start, source.frames.len() as u64) {
            Ok(p) => p,
            Err(e) => return Err(TasEditorError::Pattern(e)),
        };
        let run = match current.with_digital_overlay(&source, action.mask) {
            Ok(p) => p,
            Err(e) => return Err(TasEditorError::Pattern(e)),
        };
        let witness = TasPatternWitness { expected_cursor, ..witness };
        match self.apply_pattern_run(&witness, start, &run) {
            Ok(true) => Ok(string_of(match action.destination {
                TasMaskedPasteDestination::Cursor(_) => "Pasted checked controls",
                TasMaskedPasteDestination::Selection(_) => "Tiled checked controls",
            })),
            Ok(false) => Ok(string_of("Control paste made no change")),
            Err(e) => Err(e),
        }
    }

    /// Applies an input clipboard or range-edit action.
    pub fn apply_input_clipboard_action(&mut self, action: TasInputClipboardAction) -> (r: Result<String, TasEditorError>)
        requires
            old(self).wf(),
        ensures
            final(self).wf(),
            input_clipboard_outcome(*old(self), *final(self), action, r),
    {
        match action {
            TasInputClipboardAction::CopyPattern(a) => self.copy_to_clipboard(a),
            TasInputClipboardAction::PasteAtCursor(a) => self.paste_clipboard_at_cursor(a),
            TasInputClipboardAction::InsertAtCursor(a) => self.insert_clipboard_at_cursor(a),
            TasInputClipboardAction::TileAcrossSelection(a) => self.tile_clipboard(a),
            TasInputClipboardAction::PasteMaskedControls(a) => self.apply_masked_paste(a),
            TasInputClipboardAction::ApplyDigitalTransform(a) => self.apply_digital_transform(a),
            TasInputClipboardAction::ApplyDigitalAutofire(a) => self.apply_digital_autofire(a),
            TasInputClipboardAction::ApplySpecialRangeTransform(a) => self.apply_special_range_transform(a),
        }
    }
}

} // verus!
