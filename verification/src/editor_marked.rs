//! Marking input ranges and editing the controls within all of them at once.
use vstd::prelude::*;

use crate::digital_masks::{spec_validate_mask, validate_mask};
use crate::editor::{TasEditorError, TasEditorWindowState, lemma_recording_stays_ok};
use crate::identity::{IdentityModel, TasProjectIdentity};
use crate::input::{TasDigest, TasDigitalInputMask, TasDigitalTransform, TasInputFrame};
use crate::marked_ranges::{
    TasMarkedInputRangesState, TasMarkedRangesAction, TasMarkedRangesSnapshot, opt_context_view,
    session_context,
};
use crate::pattern::{frames_eq, TasInputPattern};
use crate::range_edits::{
    TasRangeEdit, changed_ranges, digital_edit, lemma_no_change, lemma_transform_len, ranges_authorable,
    transform_marked_ranges, transform_ranges,
};
use crate::project::{AssetModel, TasAsset, assets_view};
use crate::ranges::{
    TasRangeError, canonical, copy_ranges, normalize_ranges, ranges_within, selected_frame_count,
    validate_ranges,
};
use crate::selection::TasInputSelection;
use crate::session::{SessionModel, TasEditorSession, frame_commit_result};
use crate::special_input::{TasSpecialInputError, ensure_nondefault_input_authorable, spec_input_authorable};
use crate::text::{push_decimal, push_str, str_eq, string_of};

verus! {

/// The first start and last end of the changed ranges.
pub fn changed_bounds(changed: &Vec<(u64, u64)>) -> (r: Option<(u64, u64)>)
    ensures
        match r {
            Some((s, e)) => changed@.len() > 0 && s == changed@[0].0 && e == changed@.last().1,
            None => changed@.len() == 0,
        },
{
    let n = changed.len();
    if n == 0 {
        None
    } else {
        Some((changed[0].0, changed[n - 1].1))
    }
}

/// Accepts a snapshot that still describes the marked ranges.
pub fn validate_snapshot(state: &TasMarkedInputRangesState, snapshot: &TasMarkedRangesSnapshot) -> (r: Result<(), TasEditorError>)
    ensures
        r is Ok == (match state.context {
            Some(c) => c.expected_project_digest == snapshot.expected_project_digest
                && c.target_branch_id@ == snapshot.target_branch_id@
                && c.expected_edit_generation == snapshot.expected_edit_generation
                && c.expected_frame_count == snapshot.expected_frame_count,
            None => false,
        } && state.revision == snapshot.revision && state.ranges@ == snapshot.ranges@),
        r is Err ==> r == Err::<(), TasEditorError>(TasEditorError::StaleMarkedRanges),
{
    if state.matches_snapshot(snapshot) {
        Ok(())
    } else {
        Err(TasEditorError::StaleMarkedRanges)
    }
}

/// Accepts a non-empty selection of rows of the selected branch.
pub fn validate_selection(session: &TasEditorSession, selection: &TasInputSelection) -> (r: Result<(), TasEditorError>)
    requires
        session@.wf(),
    ensures
        r is Ok == (selection.branch_id@ == session@.branch().id && selection.start < selection.end
            && selection.end <= session@.frames().len()),
        r is Err ==> r == Err::<(), TasEditorError>(TasEditorError::InvalidSelection),
{
    if !str_eq(selection.branch_id.as_str(), session.selected_branch_id()) || selection.start >= selection.end
        || selection.end > session.frame_count() {
        return Err(TasEditorError::InvalidSelection);
    }
    Ok(())
}

/// Why a marked-range action drawn up as `snapshot` is refused on the session
/// `s` before its own checks, if it is: the ranges are first bound to the
/// session (a changed context drops them under a new revision), and the
/// snapshot must then describe them exactly.
pub open spec fn spec_marked_snapshot_refusal(
    m: TasMarkedInputRangesState,
    s: SessionModel,
    snapshot: TasMarkedRangesSnapshot,
) -> Option<TasEditorError> {
    let same = opt_context_view(m.context) == Some(session_context(s));
    if !same && m.revision == u64::MAX {
        Some(TasEditorError::MarkedRanges(crate::marked_ranges::TasMarkedRangesError::RevisionOverflow))
    } else {
        let revision = if same { m.revision } else { (m.revision + 1) as u64 };
        let ranges = if same { m.ranges@ } else { Seq::<(u64, u64)>::empty() };
        let context = session_context(s);
        if context.digest == snapshot.expected_project_digest && context.branch_id == snapshot.target_branch_id@
            && context.generation == snapshot.expected_edit_generation && context.frame_count == snapshot.expected_frame_count
            && revision == snapshot.revision && ranges == snapshot.ranges@ {
            None
        } else {
            Some(TasEditorError::StaleMarkedRanges)
        }
    }
}

/// The marked ranges and revision once bound to session `s`: kept while
/// the project state and branch stay (or the revision counter is exhausted),
/// otherwise dropped under the next revision.
pub open spec fn synced_marks(m: TasMarkedInputRangesState, s: SessionModel) -> (Seq<(u64, u64)>, u64) {
    if opt_context_view(m.context) == Some(session_context(s)) || m.revision == u64::MAX {
        (m.ranges@, m.revision)
    } else {
        (Seq::<(u64, u64)>::empty(), (m.revision + 1) as u64)
    }
}

/// `n` is `o` with at most its marked ranges changed.
pub open spec fn only_marks_changed(o: TasEditorWindowState, n: TasEditorWindowState) -> bool {
    n == (TasEditorWindowState { marked_ranges: n.marked_ranges, ..o })
}

/// A refused marked-range action leaves the ranges as binding them to the
/// session left them.
pub open spec fn marks_kept_on_refusal<T>(o: TasEditorWindowState, n: TasEditorWindowState, r: Result<T, TasEditorError>) -> bool {
    r is Err && o.session is Some ==> (n.marked_ranges.ranges@, n.marked_ranges.revision)
        == synced_marks(o.marked_ranges, o.session.unwrap()@)
}

/// Whether the ranges `wanted` normalize within `frame_count` frames to at
/// most the allowed number of ranges whose frame total fits a counter.
pub open spec fn normalizes(wanted: Seq<(u64, u64)>, frame_count: u64) -> bool {
    &&& crate::ranges::all_within(wanted, frame_count)
    &&& exists|w: Seq<(u64, u64)>| canonical(w) && #[trigger] crate::ranges::same_frames(w, wanted)
        && w.len() <= crate::limits::MAX_MARKED_INPUT_RANGES && crate::ranges::frame_total(w) <= u64::MAX
}

/// What adding the selection to the marked ranges did.
pub open spec fn marked_add_outcome(o: TasEditorWindowState, n: TasEditorWindowState, snapshot: TasMarkedRangesSnapshot, selection: TasInputSelection, r: Result<String, TasEditorError>) -> bool {
    &&& (n.session == o.session)
    &&& (n.recording == o.recording)
    &&& (r is Ok ==> canonical(n.marked_ranges.ranges@)
                    && crate::ranges::same_frames(n.marked_ranges.ranges@, snapshot.ranges@.push((selection.start, selection.end)))
                    && n.marked_ranges.revision == snapshot.revision + 1)
    &&& (o.session is None ==> r == Err::<String, TasEditorError>(TasEditorError::NoProject))
    &&& (o.session is Some ==> ({
                    let s = o.session.unwrap()@;
                    let refusal = spec_marked_snapshot_refusal(o.marked_ranges, s, snapshot);
                    let current = crate::editor_edits::selection_current(o, s, selection);
                    &&& refusal is Some ==> r == Err::<String, TasEditorError>(refusal.unwrap())
                    &&& refusal is None && !current ==> r == Err::<String, TasEditorError>(TasEditorError::StaleSelection)
                    &&& r is Ok ==> refusal is None && current
                    &&& refusal is None && current && r is Err ==> (r == Err::<String, TasEditorError>(TasEditorError::Ranges(TasRangeError::OutsideBranch))
                        || r == Err::<String, TasEditorError>(TasEditorError::Ranges(TasRangeError::TooManyRanges))
                        || r == Err::<String, TasEditorError>(TasEditorError::Ranges(TasRangeError::FrameCountOverflow))
                        || (r == Err::<String, TasEditorError>(TasEditorError::MarkedRanges(crate::marked_ranges::TasMarkedRangesError::RevisionOverflow))
                            && snapshot.revision == u64::MAX))
                    &&& r == Err::<String, TasEditorError>(TasEditorError::Ranges(TasRangeError::OutsideBranch)) ==>
                        !crate::ranges::all_within(snapshot.ranges@.push((selection.start, selection.end)), s.frames().len() as u64)
                    &&& r == Err::<String, TasEditorError>(TasEditorError::Ranges(TasRangeError::TooManyRanges)) ==>
                        forall|w: Seq<(u64, u64)>| canonical(w) && crate::ranges::same_frames(w, snapshot.ranges@.push((selection.start, selection.end)))
                            ==> w.len() > crate::limits::MAX_MARKED_INPUT_RANGES
                    &&& refusal is None && current && snapshot.revision < u64::MAX
                        && normalizes(snapshot.ranges@.push((selection.start, selection.end)), s.frames().len() as u64) ==> r is Ok
                    &&& r is Ok ==> normalizes(snapshot.ranges@.push((selection.start, selection.end)), s.frames().len() as u64)
                        && n.marked_ranges.ranges@.len() <= crate::limits::MAX_MARKED_INPUT_RANGES
                        && crate::ranges::frame_total(n.marked_ranges.ranges@) <= u64::MAX
                }))
    &&& only_marks_changed(o, n)
    &&& marks_kept_on_refusal(o, n, r)
}

/// What removing one marked range did.
pub open spec fn marked_remove_outcome(o: TasEditorWindowState, n: TasEditorWindowState, snapshot: TasMarkedRangesSnapshot, index: usize, r: Result<String, TasEditorError>) -> bool {
    &&& (n.session == o.session)
    &&& (n.recording == o.recording)
    &&& (r is Ok ==> index < snapshot.ranges@.len()
                    && n.marked_ranges.ranges@ == snapshot.ranges@.remove(index as int)
                    && n.marked_ranges.revision == snapshot.revision + 1)
    &&& (o.session is None ==> r == Err::<String, TasEditorError>(TasEditorError::NoProject))
    &&& (o.session is Some ==> ({
                    let s = o.session.unwrap()@;
                    let refusal = spec_marked_snapshot_refusal(o.marked_ranges, s, snapshot);
                    &&& refusal is Some ==> r == Err::<String, TasEditorError>(refusal.unwrap())
                    &&& refusal is None && index >= snapshot.ranges@.len() ==> r == Err::<String, TasEditorError>(TasEditorError::StaleMarkedRanges)
                    &&& refusal is None && index < snapshot.ranges@.len() ==> if snapshot.revision < u64::MAX {
                        r is Ok
                    } else {
                        r == Err::<String, TasEditorError>(TasEditorError::MarkedRanges(crate::marked_ranges::TasMarkedRangesError::RevisionOverflow))
                    }
                }))
    &&& only_marks_changed(o, n)
    &&& marks_kept_on_refusal(o, n, r)
}

/// What clearing the marked ranges did.
pub open spec fn marked_clear_outcome(o: TasEditorWindowState, n: TasEditorWindowState, snapshot: TasMarkedRangesSnapshot, r: Result<String, TasEditorError>) -> bool {
    &&& (n.session == o.session)
    &&& (n.recording == o.recording)
    &&& (r is Ok ==> n.marked_ranges.ranges@.len() == 0
                    && n.marked_ranges.revision == snapshot.revision + 1)
    &&& (o.session is None ==> r == Err::<String, TasEditorError>(TasEditorError::NoProject))
    &&& (o.session is Some ==> ({
                    let s = o.session.unwrap()@;
                    let refusal = spec_marked_snapshot_refusal(o.marked_ranges, s, snapshot);
                    &&& refusal is Some ==> r == Err::<String, TasEditorError>(refusal.unwrap())
                    &&& refusal is None ==> if snapshot.revision < u64::MAX {
                        r is Ok && r->Ok_0@ == "Cleared marked input ranges"@
                    } else {
                        r == Err::<String, TasEditorError>(TasEditorError::MarkedRanges(crate::marked_ranges::TasMarkedRangesError::RevisionOverflow))
                    }
                }))
    &&& only_marks_changed(o, n)
    &&& marks_kept_on_refusal(o, n, r)
}

/// The message of a digital transform applied across `count` marked ranges.
pub open spec fn marked_transform_message(transform: TasDigitalTransform, count: nat) -> Seq<char> {
    let verb = match transform {
        TasDigitalTransform::Clear => "Cleared selected controls"@,
        TasDigitalTransform::Invert => "Inverted selected controls"@,
        TasDigitalTransform::Reverse => "Reversed selected controls"@,
    };
    verb + " across "@ + crate::text::decimal(count) + " marked ranges"@
}

/// What a successful range edit owes beside the frames: its message (the
/// `unchanged` one when no range changed), the marked ranges `marks` kept
/// (under the next revision when the movie changed) or, for an edit of the
/// selection, the marked state untouched; the selection kept; the session
/// untouched when no frame changed, otherwise one recorded edit that changes
/// only the selected branch's frames; a cleared preview, and for a linked game one request to rebuild the
/// span of the changed ranges.
pub open spec fn range_edit_success(
    o: TasEditorWindowState,
    n: TasEditorWindowState,
    marks: Option<(Seq<(u64, u64)>, u64)>,
    target: Seq<TasInputFrame>,
    changed: Seq<(u64, u64)>,
    message: Seq<char>,
    unchanged: Seq<char>,
    r: Result<String, TasEditorError>,
) -> bool {
    let s = o.session.unwrap()@;
    &&& n.timeline_selection == o.timeline_selection
    &&& (match marks {
        None => n.marked_ranges == o.marked_ranges,
        Some((ranges, revision)) => n.marked_ranges.ranges@ == ranges
            && n.marked_ranges.revision == if target != s.frames() { (revision + 1) as u64 } else { revision },
    })
    &&& (changed.len() == 0 ==> r->Ok_0@ == unchanged && n.pending_host_request == o.pending_host_request)
    &&& (changed.len() > 0 ==> r->Ok_0@ == message)
    &&& (target == s.frames() ==> n.pending_host_request == o.pending_host_request)
    &&& (target == s.frames() ==> n.session is Some && n.session.unwrap()@ == s)
    &&& (target != s.frames() ==> s.committed(n.session.unwrap()@, crate::session::SnapshotModel {
        project: crate::session::with_branch_frames(s.current.project, s.current.selected, target, s.next_generation),
        ..s.current
    }))
    &&& (target != s.frames() ==> n.session.unwrap()@.undo == crate::session::push_bounded(s.undo, s.current)
        && n.execution_preview is None
        && (o.live_status is Linked ==> n.pending_host_request == Some(crate::live::TasEditorHostRequest::Live(
            crate::live::TasEditorLiveAction::ReconstructAfterEdit { start: changed[0].0, end: changed.last().1 })))
        && (!(o.live_status is Linked) ==> n.pending_host_request == o.pending_host_request))
}

/// What editing the checked controls within every marked range did.
pub open spec fn marked_transform_outcome(o: TasEditorWindowState, n: TasEditorWindowState, snapshot: TasMarkedRangesSnapshot, target_movie_digest: TasDigest, mask: TasDigitalInputMask, transform: TasDigitalTransform, r: Result<String, TasEditorError>) -> bool {
    &&& (n.recording == o.recording)
    &&& (r is Err ==> (o.session is Some ==> n.session is Some
                    && n.session.unwrap()@ == o.session.unwrap()@))
    &&& (r is Ok ==> o.session is Some && n.session is Some && ({
                    let s = o.session.unwrap()@;
                    let ranges = snapshot.ranges@;
                    let target = transform_ranges(s.frames(), ranges, digital_edit(mask, transform), ranges.len() as int);
                    &&& ranges.len() > 0
                    &&& ranges_within(ranges, s.frames().len() as u64)
                    &&& snapshot.target_branch_id@ == s.branch().id
                    &&& ranges_authorable(s.current.project.identity, s.current.project.assets, s.frames(), ranges, digital_edit(mask, transform), ranges.len() as int)
                    &&& target == s.frames() ==> n.session.unwrap()@ == s
                    &&& target != s.frames() ==> n.session.unwrap()@.frames() == target
                        && n.session.unwrap()@.undo.len() > 0
                        && n.session.unwrap()@.undo.last() == s.current
                    &&& range_edit_success(o, n, Some((ranges, snapshot.revision)), target,
                        changed_ranges(s.frames(), ranges, digital_edit(mask, transform), ranges.len() as int),
                        marked_transform_message(transform, ranges.len()), "Control edit made no change"@, r)
                }))
    &&& marks_kept_on_refusal(o, n, r)
    &&& (o.session is None ==> r == Err::<String, TasEditorError>(TasEditorError::NoProject))
    &&& (o.session is Some ==> ({
        let s = o.session.unwrap()@;
        let ranges = snapshot.ranges@;
        let identity = s.current.project.identity;
        let edit = digital_edit(mask, transform);
        let refusal = spec_marked_snapshot_refusal(o.marked_ranges, s, snapshot);
        let valid = ranges.len() <= crate::limits::MAX_MARKED_INPUT_RANGES && canonical(ranges)
            && crate::ranges::all_within(ranges, s.frames().len() as u64);
        let branch_ok = snapshot.target_branch_id@ == s.branch().id && TasDigest(s.branch().revision) == target_movie_digest;
        let target = transform_ranges(s.frames(), ranges, edit, ranges.len() as int);
        &&& refusal is Some ==> r == Err::<String, TasEditorError>(refusal.unwrap())
        &&& refusal is None && !valid ==> r is Err && r->Err_0 is Ranges
        &&& refusal is None && valid && ranges.len() == 0 ==> r == Err::<String, TasEditorError>(TasEditorError::NoMarkedRanges)
        &&& refusal is None && valid && ranges.len() > 0 && !branch_ok ==> r == Err::<String, TasEditorError>(TasEditorError::StaleBranch)
        &&& refusal is None && valid && ranges.len() > 0 && branch_ok && spec_validate_mask(identity, mask) is Err
            ==> r == Err::<String, TasEditorError>(TasEditorError::Mask(spec_validate_mask(identity, mask)->Err_0))
        &&& refusal is None && valid && ranges.len() > 0 && branch_ok && spec_validate_mask(identity, mask) is Ok
            && snapshot.revision == u64::MAX
            ==> r == Err::<String, TasEditorError>(TasEditorError::MarkedRanges(crate::marked_ranges::TasMarkedRangesError::RevisionOverflow))
        &&& refusal is None && valid && ranges.len() > 0 && branch_ok && spec_validate_mask(identity, mask) is Ok
            && snapshot.revision < u64::MAX && !ranges_authorable(identity, s.current.project.assets, s.frames(), ranges, edit, ranges.len() as int)
            ==> r is Err && r->Err_0 is SpecialInput
        &&& refusal is None && valid && ranges.len() > 0 && branch_ok && spec_validate_mask(identity, mask) is Ok
            && snapshot.revision < u64::MAX && ranges_authorable(identity, s.current.project.assets, s.frames(), ranges, edit, ranges.len() as int)
            && (target != s.frames() ==> s.next_generation < u64::MAX)
            ==> r is Ok
    }))
}

/// What a marked-range action did.
pub open spec fn marked_ranges_outcome(o: TasEditorWindowState, n: TasEditorWindowState, action: TasMarkedRangesAction, r: Result<String, TasEditorError>) -> bool {
    &&& (r is Err ==> (o.session is Some ==> n.session is Some
                    && n.session.unwrap()@ == o.session.unwrap()@))
    &&& (match action {
                    TasMarkedRangesAction::Add { snapshot, selection } => marked_add_outcome(o, n, snapshot, selection, r),
                    TasMarkedRangesAction::Remove { snapshot, index } => marked_remove_outcome(o, n, snapshot, index, r),
                    TasMarkedRangesAction::Clear { snapshot } => marked_clear_outcome(o, n, snapshot, r),
                    TasMarkedRangesAction::Apply { snapshot, target_movie_digest, mask, transform } =>
                        marked_transform_outcome(o, n, snapshot, target_movie_digest, mask, transform, r),
                })
}

impl TasEditorWindowState {
    /// Applies a marked-range action.
    pub fn apply_marked_ranges_action(&mut self, action: TasMarkedRangesAction) -> (r: Result<String, TasEditorError>)
        requires
            old(self).wf(),
        ensures
            final(self).wf(),
            marked_ranges_outcome(*old(self), *final(self), action, r),
    {
        match action {
            TasMarkedRangesAction::Add { snapshot, selection } => self.add_marked_range(snapshot, selection),
            TasMarkedRangesAction::Remove { snapshot, index } => self.remove_marked_range(snapshot, index),
            TasMarkedRangesAction::Clear { snapshot } => self.clear_marked_ranges(snapshot),
            TasMarkedRangesAction::Apply { snapshot, target_movie_digest, mask, transform } =>
                self.apply_transform_to_marked_ranges(snapshot, target_movie_digest, mask, transform),
        }
    }

    /// Adds the current selection to the marked ranges.
    pub fn add_marked_range(&mut self, snapshot: TasMarkedRangesSnapshot, selection: TasInputSelection) -> (r: Result<String, TasEditorError>)
        requires
            old(self).wf(),
        ensures
            final(self).wf(),
            marked_add_outcome(*old(self), *final(self), snapshot, selection, r),
    {
        let session = match &self.session {
            Some(s) => s,
            None => return Err(TasEditorError::NoProject),
        };
        match self.marked_ranges.sync(session) {
            Ok(()) => {},
            Err(e) => return Err(TasEditorError::MarkedRanges(e)),
        }
        proof {
            if self.marked_ranges.ranges@.len() == 0 {
                assert(self.marked_ranges.ranges@ =~= Seq::<(u64, u64)>::empty());
            }
        }
        match validate_snapshot(&self.marked_ranges, &snapshot) {
            Ok(()) => {},
            Err(e) => return Err(e),
        }
        let current = self.timeline_selection.snapshot(session);
        let same = match &current {
            Some(c) => c.same_as(&selection),
            None => false,
        };
        if !same {
            return Err(TasEditorError::StaleSelection);
        }
        match validate_selection(session, &selection) {
            Ok(()) => {},
            Err(e) => return Err(e),
        }
        let mut ranges = copy_ranges(&snapshot.ranges);
        ranges.push((selection.start, selection.end));
        let ghost wanted = ranges@;
        let ghost frame_count = session@.frames().len() as u64;
        let ranges = match normalize_ranges(ranges, session.frame_count()) {
            Ok(v) => v,
            Err(e) => {
                proof {
                    assert(wanted =~= snapshot.ranges@.push((selection.start, selection.end)));
                    if normalizes(wanted, frame_count) {
                        let w = choose|w: Seq<(u64, u64)>| canonical(w) && #[trigger] crate::ranges::same_frames(w, wanted)
                            && w.len() <= crate::limits::MAX_MARKED_INPUT_RANGES && crate::ranges::frame_total(w) <= u64::MAX;
                        assert(canonical(w) && crate::ranges::same_frames(w, wanted));
                    }
                }
                return Err(TasEditorError::Ranges(e));
            },
        };
        let marked = match selected_frame_count(&ranges) {
            Ok(n) => n,
            Err(e) => {
                proof {
                    assert(wanted =~= snapshot.ranges@.push((selection.start, selection.end)));
                    if normalizes(wanted, frame_count) {
                        let w = choose|w: Seq<(u64, u64)>| canonical(w) && #[trigger] crate::ranges::same_frames(w, wanted)
                            && w.len() <= crate::limits::MAX_MARKED_INPUT_RANGES && crate::ranges::frame_total(w) <= u64::MAX;
                        assert forall|f: int| crate::ranges::in_ranges(w, f) == crate::ranges::in_ranges(ranges@, f) by {
                            assert(crate::ranges::in_ranges(w, f) == crate::ranges::in_ranges(wanted, f));
                            assert(crate::ranges::in_ranges(ranges@, f) == crate::ranges::in_ranges(wanted, f));
                        }
                        crate::ranges::law_canonical_unique(w, ranges@);
                    }
                }
                return Err(TasEditorError::Ranges(e));
            },
        };
        let count = ranges.len();
        match self.marked_ranges.replace_ranges(ranges) {
            Ok(()) => {},
            Err(e) => return Err(TasEditorError::MarkedRanges(e)),
        }
        proof {
            assert(wanted =~= snapshot.ranges@.push((selection.start, selection.end)));
            assert(canonical(self.marked_ranges.ranges@) && crate::ranges::same_frames(self.marked_ranges.ranges@, wanted));
        }
        let mut message = string_of("Marked ");
        push_decimal(&mut message, marked);
        push_str(&mut message, " input frames across ");
        push_decimal(&mut message, count as u64);
        push_str(&mut message, " ranges");
        Ok(message)
    }

    /// Removes the marked range at `index`.
    pub fn remove_marked_range(&mut self, snapshot: TasMarkedRangesSnapshot, index: usize) -> (r: Result<String, TasEditorError>)
        requires
            old(self).wf(),
        ensures
            final(self).wf(),
            marked_remove_outcome(*old(self), *final(self), snapshot, index, r),
    {
        let session = match &self.session {
            Some(s) => s,
            None => return Err(TasEditorError::NoProject),
        };
        match self.marked_ranges.sync(session) {
            Ok(()) => {},
            Err(e) => return Err(TasEditorError::MarkedRanges(e)),
        }
        proof {
            if self.marked_ranges.ranges@.len() == 0 {
                assert(self.marked_ranges.ranges@ =~= Seq::<(u64, u64)>::empty());
            }
        }
        match validate_snapshot(&self.marked_ranges, &snapshot) {
            Ok(()) => {},
            Err(e) => return Err(e),
        }
        if index >= snapshot.ranges.len() {
            return Err(TasEditorError::StaleMarkedRanges);
        }
        let mut ranges = copy_ranges(&snapshot.ranges);
        ranges.remove(index);
        let mut total: u64 = 0;
        let mut k: usize = 0;
        while k < ranges.len()
            invariant
                0 <= k <= ranges@.len(),
            decreases ranges@.len() - k,
        {
            let (s, e) = ranges[k];
            if s <= e {
                total = total.saturating_add(e - s);
            }
            k += 1;
        }
        let count = ranges.len();
        match self.marked_ranges.replace_ranges(ranges) {
            Ok(()) => {},
            Err(e) => return Err(TasEditorError::MarkedRanges(e)),
        }
        let mut message = string_of("");
        push_decimal(&mut message, total);
        push_str(&mut message, " input frames remain marked across ");
        push_decimal(&mut message, count as u64);
        push_str(&mut message, " ranges");
        Ok(message)
    }

    /// Clears the marked ranges.
    pub fn clear_marked_ranges(&mut self, snapshot: TasMarkedRangesSnapshot) -> (r: Result<String, TasEditorError>)
        requires
            old(self).wf(),
        ensures
            final(self).wf(),
            marked_clear_outcome(*old(self), *final(self), snapshot, r),
    {
        let session = match &self.session {
            Some(s) => s,
            None => return Err(TasEditorError::NoProject),
        };
        match self.marked_ranges.sync(session) {
            Ok(()) => {},
            Err(e) => return Err(TasEditorError::MarkedRanges(e)),
        }
        proof {
            if self.marked_ranges.ranges@.len() == 0 {
                assert(self.marked_ranges.ranges@ =~= Seq::<(u64, u64)>::empty());
            }
        }
        match validate_snapshot(&self.marked_ranges, &snapshot) {
            Ok(()) => {},
            Err(e) => return Err(e),
        }
        match self.marked_ranges.replace_ranges(Vec::new()) {
            Ok(()) => {},
            Err(e) => return Err(TasEditorError::MarkedRanges(e)),
        }
        proof {
            assert(final_len_zero(self.marked_ranges.ranges@));
        }
        Ok(string_of("Cleared marked input ranges"))
    }

    /// Applies a digital transform within every marked range, as one edit.
    pub fn apply_transform_to_marked_ranges(
        &mut self,
        snapshot: TasMarkedRangesSnapshot,
        target_movie_digest: TasDigest,
        mask: TasDigitalInputMask,
        transform: TasDigitalTransform,
    ) -> (r: Result<String, TasEditorError>)
        requires
            old(self).wf(),
        ensures
            final(self).wf(),
            marked_transform_outcome(*old(self), *final(self), snapshot, target_movie_digest, mask, transform, r),
    {
        let session = match &self.session {
            Some(s) => s,
            None => return Err(TasEditorError::NoProject),
        };
        match self.marked_ranges.sync(session) {
            Ok(()) => {},
            Err(e) => return Err(TasEditorError::MarkedRanges(e)),
        }
        proof {
            if self.marked_ranges.ranges@.len() == 0 {
                assert(self.marked_ranges.ranges@ =~= Seq::<(u64, u64)>::empty());
            }
        }
        match validate_snapshot(&self.marked_ranges, &snapshot) {
            Ok(()) => {},
            Err(e) => return Err(e),
        }
        proof {
            crate::project::lemma_branch_index_of_member(session@.current.project.branches, session@.current.selected);
        }
        let count = session.frame_count();
        match validate_ranges(&snapshot.ranges, count) {
            Ok(()) => {},
            Err(e) => return Err(TasEditorError::Ranges(e)),
        }
        if snapshot.ranges.len() == 0 {
            return Err(TasEditorError::NoMarkedRanges);
        }
        if !str_eq(snapshot.target_branch_id.as_str(), session.selected_branch_id()) {
            return Err(TasEditorError::StaleBranch);
        }
        match session.project().branch_movie_digest(snapshot.target_branch_id.as_str()) {
            Some(d) => if d != target_movie_digest {
                return Err(TasEditorError::StaleBranch);
            },
            None => return Err(TasEditorError::StaleBranch),
        }
        match validate_mask(&session.project().identity, mask) {
            Ok(()) => {},
            Err(e) => return Err(TasEditorError::Mask(e)),
        }
        let next_revision = match self.marked_ranges.next_revision() {
            Ok(v) => v,
            Err(e) => return Err(TasEditorError::MarkedRanges(e)),
        };
        let branch = session.selected_branch();
        let (frames, changed) = match transform_marked_ranges(
            &branch.frames,
            &snapshot.ranges,
            TasRangeEdit::Digital { mask, transform },
            &session.project().identity,
            &session.project().assets,
        ) {
            Ok(v) => v,
            Err(e) => return Err(TasEditorError::SpecialInput(e)),
        };
        if changed.len() == 0 {
            proof {
                lemma_no_change(session@.frames(), snapshot.ranges@, digital_edit(mask, transform), snapshot.ranges@.len() as int);
            }
            return Ok(string_of("Control edit made no change"));
        }
        let bounds = changed_bounds(&changed);
        let branch_id = string_of(session.selected_branch_id());
        let mut session = match self.session.take() {
            Some(s) => s,
            None => return Err(TasEditorError::NoProject),
        };
        let ghost before = session@;
        let patches: Vec<(u64, TasInputPattern)> = vec![(0, TasInputPattern { frames })];
        proof {
            lemma_transform_len(before.frames(), snapshot.ranges@, digital_edit(mask, transform), snapshot.ranges@.len() as int);
            assert(patches@[0].1@.len() == before.frames().len());
            reveal_with_fuel(crate::session::splice_all, 2);
            assert(patches@[0].0 == 0);
            assert(crate::session::splice_all(before.frames(), patches@, 1) =~= patches@[0].1@);
            assert(crate::session::patches_fit(patches@, before.frames().len()));
        }
        proof {
            crate::project::lemma_branch_index_of_member(before.current.project.branches, before.current.selected);
            crate::range_edits::lemma_changed_canonical(before.frames(), snapshot.ranges@, digital_edit(mask, transform),
                snapshot.ranges@.len() as int);
            let ch = changed@;
            assert(ch[0].0 < ch[0].1);
            if ch.len() > 1 {
                assert(ch[0].1 < ch[ch.len() - 1].0);
                assert(ch[ch.len() - 1].0 < ch[ch.len() - 1].1);
            }
            assert(ch[0].0 < ch.last().1);
        }
        match session.replace_input_patterns(branch_id.as_str(), &patches) {
            Ok(outcome) => {
                proof {
                    lemma_recording_stays_ok(self.recording, before, session@);
                }
                self.session = Some(session);
                if outcome.changed {
                    let session_ref = match &self.session {
                        Some(s) => s,
                        None => return Err(TasEditorError::NoProject),
                    };
                    self.marked_ranges.refresh_after_apply(session_ref, next_revision, copy_ranges(&snapshot.ranges));
                    self.execution_preview = None;
                    match bounds {
                        Some((s, e)) => self.queue_linked_edit_reconstruction(s, e),
                        None => {},
                    }
                }
                let mut message = string_of(match transform {
                    TasDigitalTransform::Clear => "Cleared selected controls",
                    TasDigitalTransform::Invert => "Inverted selected controls",
                    TasDigitalTransform::Reverse => "Reversed selected controls",
                });
                push_str(&mut message, " across ");
                push_decimal(&mut message, snapshot.ranges.len() as u64);
                push_str(&mut message, " marked ranges");
                Ok(message)
            },
            Err(e) => {
                self.session = Some(session);
                Err(TasEditorError::Edit(e))
            },
        }
    }
}

pub open spec fn final_len_zero(s: Seq<(u64, u64)>) -> bool {
    s.len() == 0
}

} // verus!
