//! The reducer: the gates every action passes, and the handlers of the
//! branch, history and persistence actions.
use vstd::prelude::*;

use crate::editor::{
    TasEditorAction, TasEditorError, TasEditorExecutionAvailability, TasEditorWindowState,
    lemma_recording_stays_ok, spec_blocked_while_live,
};
use crate::editor_input::TasTimelineSelectionChange;
use crate::live::{
    TasEditorFileRequest, TasEditorHostRequest, TasEditorLiveAction, TasEditorLiveStatus, spec_execution_boundary,
    spec_holds_authority, spec_locks_editor,
};
use crate::session::{SessionModel, TasEditError, TasEditorSession};
use crate::text::{push_decimal, push_str, string_of};

verus! {

/// Actions that must wait until frame recording stops.
pub open spec fn spec_requires_recording_stopped(action: TasEditorAction) -> bool {
    action is SaveManual || action is Autosave || action is RecoverAutosave || action is Undo
        || action is Redo || action is Metadata || action is SpecialInput || action is Event || action is SelectBranch
        || action is ForkBranch || action is DeleteBranchSubtree || action is RenameActiveBranch
        || action is InsertNeutralFrames || action is DeleteFrames || action is StartRecordingAtEnd
        || action is JumpToBranchDiffHunk || action is ContinueFileRequest
}

/// Actions a linked (paused) game does not allow: they would move the editor
/// away from the game's branch.
pub open spec fn spec_blocked_while_linked(action: TasEditorAction) -> bool {
    action is SelectBranch || action is DeleteBranchSubtree || action is RenameActiveBranch
}

/// The first condition that refuses an action, if any: export, live
/// authority, the linked boundary, or an active recording.
pub open spec fn spec_gate(state: TasEditorWindowState, action: TasEditorAction) -> Option<TasEditorError> {
    if state.verified_export_busy {
        Some(TasEditorError::ExportBusy)
    } else if spec_locks_editor(state.live_status) && spec_blocked_while_live(action) {
        Some(TasEditorError::LiveAuthority)
    } else if state.live_status is Linked && spec_blocked_while_linked(action) {
        Some(TasEditorError::LiveAuthority)
    } else if state.live_status is Linked && action is ForkBranch && !(state.session is Some
        && spec_execution_boundary(state.live_status) == Some(state.session.unwrap()@.cursor())) {
        Some(TasEditorError::LinkedBoundary)
    } else if state.recording is Some && spec_requires_recording_stopped(action) {
        Some(TasEditorError::RecordingActive)
    } else {
        None
    }
}

/// A handler's silent success as the reducer reports it.
pub open spec fn spec_quiet_result(r: Result<(), TasEditorError>) -> Result<Option<String>, TasEditorError> {
    match r {
        Ok(()) => Ok(None),
        Err(e) => Err(e),
    }
}

/// A handler's silent success as the reducer reports it.
pub fn quiet_result(r: Result<(), TasEditorError>) -> (out: Result<Option<String>, TasEditorError>)
    ensures
        out == spec_quiet_result(r),
{
    match r {
        Ok(()) => Ok(None),
        Err(e) => Err(e),
    }
}

/// A handler's message as the reducer reports it.
pub open spec fn spec_lift_message(r: Result<String, TasEditorError>) -> Result<Option<String>, TasEditorError> {
    match r {
        Ok(m) => Ok(Some(m)),
        Err(e) => Err(e),
    }
}

/// A handler's message as the reducer reports it.
pub fn lift_message(r: Result<String, TasEditorError>) -> (out: Result<Option<String>, TasEditorError>)
    ensures
        out == spec_lift_message(r),
{
    match r {
        Ok(m) => Ok(Some(m)),
        Err(e) => Err(e),
    }
}

impl TasEditorAction {
    /// Whether the action waits until frame recording stops.
    pub fn requires_recording_stopped(&self) -> (r: bool)
        ensures
            r == spec_requires_recording_stopped(*self),
    {
        matches!(self,
            TasEditorAction::SaveManual | TasEditorAction::Autosave | TasEditorAction::RecoverAutosave
            | TasEditorAction::Undo | TasEditorAction::Redo | TasEditorAction::Metadata(_)
            | TasEditorAction::SpecialInput(_) | TasEditorAction::Event(_) | TasEditorAction::SelectBranch(_)
            | TasEditorAction::ForkBranch { .. } | TasEditorAction::DeleteBranchSubtree { .. }
            | TasEditorAction::RenameActiveBranch { .. } | TasEditorAction::InsertNeutralFrames { .. }
            | TasEditorAction::DeleteFrames { .. } | TasEditorAction::StartRecordingAtEnd
            | TasEditorAction::JumpToBranchDiffHunk(_) | TasEditorAction::ContinueFileRequest { .. })
    }

    /// Whether a linked game refuses the action.
    pub fn blocked_while_linked(&self) -> (r: bool)
        ensures
            r == spec_blocked_while_linked(*self),
    {
        matches!(self,
            TasEditorAction::SelectBranch(_) | TasEditorAction::DeleteBranchSubtree { .. }
            | TasEditorAction::RenameActiveBranch { .. })
    }
}

/// The answer selecting branch `id` owes on session `s`.
pub open spec fn select_branch_answer(s: SessionModel, id: Seq<char>, r: Result<Option<String>, TasEditorError>) -> bool {
    if s.current.project.has_branch(id) {
        r == Ok::<Option<String>, TasEditorError>(None)
    } else {
        r == Err::<Option<String>, TasEditorError>(TasEditorError::Edit(TasEditError::UnknownBranch))
    }
}

/// The answer forking branch `id` named `name` owes on session `s`.
pub open spec fn fork_branch_answer(s: SessionModel, id: Seq<char>, name: Seq<char>, r: Result<Option<String>, TasEditorError>) -> bool {
    if !crate::project::spec_valid_id(id) {
        r == Err::<Option<String>, TasEditorError>(TasEditorError::Edit(TasEditError::InvalidBranchId))
    } else if s.current.project.has_branch(id) {
        r == Err::<Option<String>, TasEditorError>(TasEditorError::Edit(TasEditError::DuplicateBranchId))
    } else if crate::text::spec_trim(name).len() == 0 {
        r == Err::<Option<String>, TasEditorError>(TasEditorError::Edit(TasEditError::BlankName))
    } else if s.next_generation == u64::MAX || s.current.project.branches.len() >= usize::MAX {
        r == Err::<Option<String>, TasEditorError>(TasEditorError::Edit(TasEditError::GenerationExhausted))
    } else {
        r is Ok && r->Ok_0 is Some && r->Ok_0.unwrap()@ == "Created branch "@ + id
    }
}

/// The answer renaming the selected branch to `name` owes on session `s`.
pub open spec fn rename_branch_answer(s: SessionModel, name: Seq<char>, r: Result<Option<String>, TasEditorError>) -> bool {
    let t = crate::text::spec_trim(name);
    if t.len() == 0 {
        r == Err::<Option<String>, TasEditorError>(TasEditorError::Edit(TasEditError::BlankName))
    } else if t != s.branch().name && s.next_generation == u64::MAX {
        r == Err::<Option<String>, TasEditorError>(TasEditorError::Edit(TasEditError::GenerationExhausted))
    } else {
        r == Ok::<Option<String>, TasEditorError>(None)
    }
}

/// The answer deleting `count` rows from row `start` owes on session `s`.
pub open spec fn delete_frames_answer(s: SessionModel, start: u64, count: u64, r: Result<Option<String>, TasEditorError>) -> bool {
    if count == 0 {
        r == Err::<Option<String>, TasEditorError>(TasEditorError::Edit(TasEditError::InvalidCount))
    } else if start + count > s.frames().len() {
        r == Err::<Option<String>, TasEditorError>(TasEditorError::Edit(TasEditError::OutsideBranch))
    } else if s.next_generation == u64::MAX {
        r == Err::<Option<String>, TasEditorError>(TasEditorError::Edit(TasEditError::GenerationExhausted))
    } else {
        r == Ok::<Option<String>, TasEditorError>(None)
    }
}

/// The answer deleting the subtree of branch `id` owes on session `s`; `n`
/// is the session afterwards.
pub open spec fn delete_subtree_answer(s: SessionModel, n: SessionModel, id: Seq<char>, r: Result<Option<String>, TasEditorError>) -> bool {
    let b = s.current.project.branches;
    if !s.current.project.has_branch(id) {
        r == Err::<Option<String>, TasEditorError>(TasEditorError::Edit(TasEditError::UnknownBranch))
    } else if b[crate::project::branch_index_of(b, id).unwrap()].parent is None {
        r == Err::<Option<String>, TasEditorError>(TasEditorError::Edit(TasEditError::RootBranch))
    } else if crate::project::in_subtree(b, id, s.branch().id) {
        r == Err::<Option<String>, TasEditorError>(TasEditorError::Edit(TasEditError::ActiveBranchFamily))
    } else if s.next_generation == u64::MAX {
        r == Err::<Option<String>, TasEditorError>(TasEditorError::Edit(TasEditError::GenerationExhausted))
    } else {
        r is Ok && r->Ok_0 is Some && r->Ok_0.unwrap()@ == "Deleted "@
            + crate::text::decimal((b.len() - n.current.project.branches.len()) as nat) + " branches"@
    }
}

/// The answer recovering the autosaved project owes on session `s`.
pub open spec fn recover_answer(s: SessionModel, r: Result<Option<String>, TasEditorError>) -> bool {
    match s.autosave {
        Some(_) => r is Ok && r->Ok_0 is Some && r->Ok_0.unwrap()@ == "Recovered the autosaved TAS project"@,
        None => r == Err::<Option<String>, TasEditorError>(TasEditorError::Edit(TasEditError::NoAutosave)),
    }
}

/// What continuing the waiting file operation did: with none waiting,
/// nothing; otherwise the operation goes to the host, after the project was
/// saved when `save` asked for it.
pub open spec fn continue_file_outcome(o: TasEditorWindowState, n: TasEditorWindowState, save: bool, r: Result<Option<String>, TasEditorError>) -> bool {
    match o.pending_file_request {
        None => r == Ok::<Option<String>, TasEditorError>(None) && n == o,
        Some(request) => r == Ok::<Option<String>, TasEditorError>(None)
            && n.pending_file_request is None
            && n.pending_host_request == Some(TasEditorHostRequest::File(request))
            && n.recording == o.recording
            && (o.session is None ==> n.session is None)
            && (o.session is Some ==> n.session is Some
                && n.session.unwrap()@.current == o.session.unwrap()@.current
                && (save ==> !n.session.unwrap()@.is_dirty())
                && (!save ==> n.session.unwrap()@ == o.session.unwrap()@)),
    }
}

/// What selecting the linked game's boundary did.
pub open spec fn live_boundary_outcome(o: TasEditorWindowState, n: TasEditorWindowState, r: Result<Option<String>, TasEditorError>) -> bool {
    &&& (n.pending_host_request == o.pending_host_request)
    &&& (r is Ok ==> spec_execution_boundary(o.live_status) is Some && n.session is Some
                    && n.session.unwrap()@.cursor() == spec_execution_boundary(o.live_status).unwrap()
                    && n.timeline_follow_selection
                    && n.session.unwrap()@.current == (crate::session::SnapshotModel {
                        cursor: n.session.unwrap()@.cursor(),
                        ..o.session.unwrap()@.current
                    })
                    && n.session.unwrap()@.undo == o.session.unwrap()@.undo)
    &&& (r is Err ==> (o.session is Some ==> n.session is Some
                    && n.session.unwrap()@ == o.session.unwrap()@))
    &&& (match spec_execution_boundary(o.live_status) {
        None => r == Err::<Option<String>, TasEditorError>(TasEditorError::NotLinked),
        Some(b) => match o.session {
            None => r == Err::<Option<String>, TasEditorError>(TasEditorError::NoProject),
            Some(s) => if b <= s@.frames().len() {
                r == Ok::<Option<String>, TasEditorError>(None)
            } else {
                r == Err::<Option<String>, TasEditorError>(TasEditorError::Edit(TasEditError::OutsideBranch))
            },
        },
    })
}

/// What asking for a private seek did.
pub open spec fn private_seek_outcome(o: TasEditorWindowState, n: TasEditorWindowState, target: u64, r: Result<(), TasEditorError>) -> bool {
    &&& (match r {
                    Ok(()) => o.execution_availability == TasEditorExecutionAvailability::Ready
                        && o.session is Some && target <= o.session.unwrap()@.frames().len()
                        && n == (TasEditorWindowState { pending_seek: Some(target), ..o }),
                    Err(_) => n == o,
                })
    &&& (r is Err ==> r == Err::<(), TasEditorError>(
        if o.execution_availability != TasEditorExecutionAvailability::Ready {
            TasEditorError::ExecutionNotAttached
        } else if o.session is None {
            TasEditorError::NoProject
        } else {
            TasEditorError::SeekOutsideBranch
        },
    ))
    &&& (o.execution_availability == TasEditorExecutionAvailability::Ready && o.session is Some
        && target <= o.session.unwrap()@.frames().len() ==> r is Ok)
}

impl TasEditorWindowState {
    /// The first condition that refuses `action`, if any.
    pub fn gate(&self, action: &TasEditorAction) -> (r: Option<TasEditorError>)
        ensures
            r == spec_gate(*self, *action),
    {
        if self.verified_export_busy {
            return Some(TasEditorError::ExportBusy);
        }
        if self.live_status.locks_editor() && action.blocked_while_live_authority_is_active() {
            return Some(TasEditorError::LiveAuthority);
        }
        if self.live_status.is_linked() && action.blocked_while_linked() {
            return Some(TasEditorError::LiveAuthority);
        }
        if self.live_status.is_linked() && matches!(action, TasEditorAction::ForkBranch { .. })
            && !self.allows_linked_boundary_branch(action) {
            return Some(TasEditorError::LinkedBoundary);
        }
        if self.recording.is_some() && action.requires_recording_stopped() {
            return Some(TasEditorError::RecordingActive);
        }
        None
    }

    /// Whether the editor refuses edits: a live session holds the game, or a
    /// verified export is running.
    pub fn editor_locked(&self) -> (r: bool)
        ensures
            r == (spec_locks_editor(self.live_status) || self.verified_export_busy),
    {
        self.live_status.locks_editor() || self.verified_export_busy
    }

    /// Whether saving, opening and history shortcuts wait: a live session
    /// holds authority, a recording draft is open, or an export is running.
    pub fn file_actions_locked(&self) -> (r: bool)
        ensures
            r == self.file_actions_locked_spec(),
    {
        self.live_status.holds_authority() || self.recording.is_some() || self.verified_export_busy
    }

    /// The history step a keyboard shortcut asks for, when it can run: undo
    /// first, then redo; nothing while file actions are locked.
    pub fn shortcut_history_action(&self, undo_requested: bool, redo_requested: bool) -> (r: Option<TasEditorAction>)
        ensures
            r == if !self.file_actions_locked_spec() && undo_requested && self.session is Some
                && self.session.unwrap()@.undo.len() > 0 {
                Some(TasEditorAction::Undo)
            } else if !self.file_actions_locked_spec() && redo_requested && self.session is Some
                && self.session.unwrap()@.redo.len() > 0 {
                Some(TasEditorAction::Redo)
            } else {
                None
            },
    {
        let locked = self.file_actions_locked();
        let (can_undo, can_redo) = match &self.session {
            Some(s) => (s.can_undo(), s.can_redo()),
            None => (false, false),
        };
        if !locked && undo_requested && can_undo {
            Some(TasEditorAction::Undo)
        } else if !locked && redo_requested && can_redo {
            Some(TasEditorAction::Redo)
        } else {
            None
        }
    }

    /// Whether saving, opening and history shortcuts wait.
    pub open spec fn file_actions_locked_spec(&self) -> bool {
        spec_holds_authority(self.live_status) || self.recording is Some || self.verified_export_busy
    }

    /// Applies one action. A gated action fails and changes nothing.
    #[verifier::spinoff_prover]
    #[verifier::rlimit(100)]
    pub fn reduce(&mut self, action: TasEditorAction) -> (r: Result<Option<String>, TasEditorError>)
        requires
            old(self).wf(),
        ensures
            final(self).wf(),
            spec_gate(*old(self), action) is Some ==> r == Err::<Option<String>, TasEditorError>(spec_gate(*old(self), action).unwrap())
                && *final(self) == *old(self),
            r is Err && old(self).recording is None && old(self).session is Some ==> final(self).session is Some
                && final(self).session.unwrap()@ == old(self).session.unwrap()@,
            spec_gate(*old(self), action) is None ==> match action {
                TasEditorAction::InsertNeutralFrames { .. } => old(self).session is None
                    ==> r == Err::<Option<String>, TasEditorError>(TasEditorError::NoProject),
                TasEditorAction::SelectCursor(cursor) => exists|c: Result<(), TasEditorError>|
                    crate::editor_input::selection_change_outcome(*old(self), *final(self), TasTimelineSelectionChange::Boundary(cursor), c)
                        && #[trigger] spec_quiet_result(c) == r,
                TasEditorAction::SelectTimelineFrame { frame, extend_selection } => exists|c: Result<(), TasEditorError>|
                    crate::editor_input::selection_change_outcome(*old(self), *final(self),
                        TasTimelineSelectionChange::Frame { frame, extend_selection }, c) && #[trigger] spec_quiet_result(c) == r,
                TasEditorAction::SelectTimelineRange { anchor, active } => exists|c: Result<(), TasEditorError>|
                    crate::editor_input::selection_change_outcome(*old(self), *final(self),
                        TasTimelineSelectionChange::Range { anchor, active }, c) && #[trigger] spec_quiet_result(c) == r,
                TasEditorAction::NavigateTimelineSelection { navigation, extend_selection } => exists|c: Result<(), TasEditorError>|
                    crate::editor_input::selection_change_outcome(*old(self), *final(self),
                        TasTimelineSelectionChange::Navigate { navigation, extend_selection }, c) && #[trigger] spec_quiet_result(c) == r,
                TasEditorAction::SelectAllTimelineFrames => match old(self).session {
                    None => r == Err::<Option<String>, TasEditorError>(TasEditorError::NoProject) && *final(self) == *old(self),
                    Some(s) => r == Ok::<Option<String>, TasEditorError>(None) && *final(self) == (TasEditorWindowState {
                        timeline_selection: crate::selection::TasTimelineSelection {
                            rows: if s@.frames().len() > 0 { Some((0u64, (s@.frames().len() - 1) as u64)) } else { None::<(u64, u64)> },
                        },
                        timeline_follow_selection: true,
                        ..*old(self)
                    }),
                },
                TasEditorAction::CancelFileRequest => r == Ok::<Option<String>, TasEditorError>(None)
                    && *final(self) == (TasEditorWindowState { pending_file_request: None, ..*old(self) }),
                TasEditorAction::ContinueFileRequest { save } => continue_file_outcome(*old(self), *final(self), save, r),
                TasEditorAction::CancelAutosaveRecovery => r == Ok::<Option<String>, TasEditorError>(None)
                    && *final(self) == (TasEditorWindowState { pending_autosave_recovery: false, ..*old(self) }),
                TasEditorAction::ClearTimelineSelection => r == Ok::<Option<String>, TasEditorError>(None)
                    && *final(self) == (TasEditorWindowState {
                        timeline_selection: crate::selection::TasTimelineSelection { rows: None },
                        ..*old(self)
                    }),
                TasEditorAction::SelectLiveExecutionBoundary => live_boundary_outcome(*old(self), *final(self), r),
                TasEditorAction::RequestLiveGoToSelection => if old(self).session is None {
                    r == Err::<Option<String>, TasEditorError>(TasEditorError::NoProject) && *final(self) == *old(self)
                } else {
                    r == Ok::<Option<String>, TasEditorError>(None) && *final(self) == (TasEditorWindowState {
                        pending_host_request: Some(TasEditorHostRequest::Live(TasEditorLiveAction::GoToSelection)),
                        ..*old(self)
                    })
                },
                TasEditorAction::ExecuteSeek(target) => old(self).recording is None ==> exists|c: Result<(), TasEditorError>|
                    private_seek_outcome(*old(self), *final(self), target, c) && #[trigger] spec_quiet_result(c) == r,
                TasEditorAction::ToggleDigital { cursor, player, field, mask } => exists|c: Result<(), TasEditorError>|
                    crate::editor_input::digital_edit_outcome(*old(self), *final(self), cursor, player, field, mask, None, c)
                        && #[trigger] spec_quiet_result(c) == r,
                TasEditorAction::SetDigital { cursor, player, field, mask, pressed } => exists|c: Result<(), TasEditorError>|
                    crate::editor_input::digital_edit_outcome(*old(self), *final(self), cursor, player, field, mask, Some(pressed), c)
                        && #[trigger] spec_quiet_result(c) == r,
                TasEditorAction::ToggleColecoControl { cursor, player, control } => exists|c: Result<(), TasEditorError>|
                    crate::editor_input::coleco_toggle_outcome(*old(self), *final(self), cursor, player, control, c)
                        && #[trigger] spec_quiet_result(c) == r,
                TasEditorAction::SetColecoKeypad { cursor, player, key } => exists|c: Result<(), TasEditorError>|
                    crate::editor_input::coleco_keypad_outcome(*old(self), *final(self), cursor, player, key, c)
                        && #[trigger] spec_quiet_result(c) == r,
                TasEditorAction::StartRecordingAtEnd => exists|c: Result<String, TasEditorError>|
                    crate::editor_input::recording_start_outcome(*old(self), *final(self), c) && #[trigger] spec_lift_message(c) == r,
                TasEditorAction::CaptureRecordingFrame => exists|c: Result<String, TasEditorError>|
                    crate::editor_input::recording_capture_outcome(*old(self), *final(self), c) && #[trigger] spec_lift_message(c) == r,
                TasEditorAction::StopRecording => r is Ok && crate::editor_input::recording_stop_outcome(*old(self), *final(self), r->Ok_0),
                _ => true,
            },
            spec_gate(*old(self), action) is None && old(self).recording is None ==> match action {
                TasEditorAction::MarkedRanges(a) => exists|c: Result<String, TasEditorError>|
                    crate::editor_marked::marked_ranges_outcome(*old(self), *final(self), a, c) && #[trigger] spec_lift_message(c) == r,
                TasEditorAction::InputClipboard(a) => exists|c: Result<String, TasEditorError>|
                    crate::editor_clipboard::input_clipboard_outcome(*old(self), *final(self), a, c) && #[trigger] spec_lift_message(c) == r,
                _ => true,
            },
            spec_gate(*old(self), action) is None && old(self).session is Some ==> ({
                let s = old(self).session.unwrap()@;
                let n = final(self).session.unwrap()@;
                match action {
                    TasEditorAction::SaveManual => final(self).session is Some && r is Ok && !n.is_dirty() && n.current == s.current,
                    TasEditorAction::Autosave => final(self).session is Some && r is Ok && n.current == s.current && n.autosave is Some
                        && n.autosave.unwrap().edit_generation == s.current.project.edit_generation,
                    TasEditorAction::RecoverAutosave => final(self).session is Some && recover_answer(s, r)
                        && (r is Ok ==> s.autosave is Some && n.current.project == s.autosave.unwrap()),
                    TasEditorAction::Undo => final(self).session is Some && if s.undo.len() > 0 {
                        r is Ok && s.undone(n)
                    } else {
                        r == Err::<Option<String>, TasEditorError>(TasEditorError::NothingToUndo) && n == s
                    },
                    TasEditorAction::Redo => final(self).session is Some && if s.redo.len() > 0 {
                        r is Ok && s.redone(n)
                    } else {
                        r == Err::<Option<String>, TasEditorError>(TasEditorError::NothingToRedo) && n == s
                    },
                    TasEditorAction::SelectBranch(id) => final(self).session is Some && select_branch_answer(s, id@, r)
                        && (r is Ok ==> s.current.project.has_branch(id@) && n.branch().id == id@),
                    TasEditorAction::InsertNeutralFrames { cursor, count } => final(self).session is Some
                        && (match crate::session::spec_insert_refusal(s, cursor, count) {
                            Some(e) => r == Err::<Option<String>, TasEditorError>(TasEditorError::Edit(e)),
                            None => r is Ok,
                        })
                        && (r is Ok ==> n.cursor() == cursor
                            && n.frames() == crate::timeline_edit::frames_after_insert(s.frames(), cursor as int, count as nat)),
                    TasEditorAction::DeleteFrames { start, count } => final(self).session is Some
                        && delete_frames_answer(s, start, count, r)
                        && (r is Ok ==> n.cursor() == crate::timeline_edit::cursor_after_delete(s.cursor(), start, count)
                            && n.frames() == crate::timeline_edit::frames_after_delete(s.frames(), start as int, count as int)),
                    TasEditorAction::ForkBranch { id, name } => final(self).session is Some
                        && fork_branch_answer(s, id@, name@, r)
                        && (r is Ok ==> n.branch().id == id@ && n.cursor() == s.cursor() && n.frames() == s.frames()),
                    TasEditorAction::DeleteBranchSubtree { id } => final(self).session is Some
                        && delete_subtree_answer(s, n, id@, r)
                        && (r is Ok ==> n.branch().id == s.branch().id
                            && n.current.project.branches == crate::session::kept_branches(s.current.project.branches, id@,
                                s.current.project.branches.len() as int)),
                    TasEditorAction::RenameActiveBranch { name } => final(self).session is Some
                        && rename_branch_answer(s, name@, r)
                        && (r is Ok ==> n.branch().name == crate::text::spec_trim(name@)),
                    TasEditorAction::JumpToBranchDiffHunk(a) => match crate::summaries::branch_diff_jump_refusal(s, a) {
                        Some(e) => r == Err::<Option<String>, TasEditorError>(e),
                        None => r is Ok && final(self).session is Some && s.moved_to(n,
                            crate::project::branch_index_of(s.current.project.branches, a.source_branch_id@).unwrap(), a.cursor),
                    },
                    TasEditorAction::Event(a) => exists|c: Result<String, TasEditorError>|
                        crate::editor_events::event_outcome(*old(self), *final(self), a, c) && #[trigger] spec_lift_message(c) == r,
                    TasEditorAction::SpecialInput(a) => exists|c: Result<String, TasEditorError>|
                        crate::editor_special::special_input_outcome(*old(self), *final(self), a, c) && #[trigger] spec_lift_message(c) == r,
                    TasEditorAction::Metadata(a) => exists|c: Result<String, TasEditorError>|
                        crate::metadata::metadata_outcome(*old(self), *final(self), a, c) && #[trigger] spec_lift_message(c) == r,
                    _ => true,
                }
            }),
    {
        match self.gate(&action) {
            Some(e) => return Err(e),
            None => {},
        }
        match action {
            TasEditorAction::SaveManual => self.save_manual(),
            TasEditorAction::Autosave => self.autosave_now(),
            TasEditorAction::RecoverAutosave => {
                self.pending_autosave_recovery = false;
                self.recover_autosave()
            },
            TasEditorAction::CancelFileRequest => {
                self.pending_file_request = None;
                Ok(None)
            },
            TasEditorAction::ContinueFileRequest { save } => self.continue_file_request(save),
            TasEditorAction::CancelAutosaveRecovery => {
                self.pending_autosave_recovery = false;
                Ok(None)
            },
            TasEditorAction::Undo => self.undo(),
            TasEditorAction::Redo => self.redo(),
            TasEditorAction::SelectBranch(id) => self.select_branch(id.as_str()),
            TasEditorAction::SelectCursor(cursor) => {
                let result = self.apply_timeline_selection_change(TasTimelineSelectionChange::Boundary(cursor));
                quiet_result(result)
            },
            TasEditorAction::SelectTimelineFrame { frame, extend_selection } => {
                let result = self.apply_timeline_selection_change(TasTimelineSelectionChange::Frame { frame, extend_selection });
                quiet_result(result)
            },
            TasEditorAction::SelectTimelineRange { anchor, active } => {
                let result = self.apply_timeline_selection_change(TasTimelineSelectionChange::Range { anchor, active });
                quiet_result(result)
            },
            TasEditorAction::NavigateTimelineSelection { navigation, extend_selection } => {
                let result = self.apply_timeline_selection_change(TasTimelineSelectionChange::Navigate { navigation, extend_selection });
                quiet_result(result)
            },
            TasEditorAction::SelectAllTimelineFrames => {
                let count = match &self.session {
                    Some(s) => s.frame_count(),
                    None => return Err(TasEditorError::NoProject),
                };
                self.timeline_selection.select_range(0, count);
                self.timeline_follow_selection = true;
                Ok(None)
            },
            TasEditorAction::ClearTimelineSelection => {
                self.timeline_selection.rows = None;
                Ok(None)
            },
            TasEditorAction::SelectLiveExecutionBoundary => self.select_live_execution_boundary(),
            TasEditorAction::RequestLiveGoToSelection => {
                if self.session.is_none() {
                    return Err(TasEditorError::NoProject);
                }
                self.pending_host_request = Some(TasEditorHostRequest::Live(TasEditorLiveAction::GoToSelection));
                Ok(None)
            },
            TasEditorAction::ExecuteSeek(target) => {
                self.discard_recording_draft();
                let result = self.execute_private_seek(target);
                quiet_result(result)
            },
            TasEditorAction::JumpToBranchDiffHunk(a) => {
                let result = self.apply_branch_diff_jump_action(&a);
                lift_message(result)
            },
            TasEditorAction::MarkedRanges(a) => {
                self.discard_recording_draft();
                let ghost before = *self;
                let ghost action = a;
                let result = self.apply_marked_ranges_action(a);
                proof {
                    assert(crate::editor_marked::marked_ranges_outcome(before, *self, action, result));
                }
                lift_message(result)
            },
            TasEditorAction::InputClipboard(a) => {
                self.discard_recording_draft();
                let ghost before = *self;
                let ghost action = a;
                let result = self.apply_input_clipboard_action(a);
                proof {
                    assert(crate::editor_clipboard::input_clipboard_outcome(before, *self, action, result));
                }
                lift_message(result)
            },
            TasEditorAction::Event(a) => {
                let ghost before = *self;
                let ghost action = a;
                let result = self.apply_event_action(a);
                proof {
                    assert(crate::editor_events::event_outcome(before, *self, action, result));
                }
                lift_message(result)
            },
            TasEditorAction::Metadata(a) => {
                let result = self.apply_metadata_action(a);
                lift_message(result)
            },
            TasEditorAction::SpecialInput(a) => {
                let ghost before = *self;
                let ghost action = a;
                let result = self.apply_special_input_action(a);
                proof {
                    assert(crate::editor_special::special_input_outcome(before, *self, action, result));
                }
                lift_message(result)
            },
            TasEditorAction::ToggleDigital { cursor, player, field, mask } => {
                let result = self.edit_digital_input(cursor, player, field, mask, None);
                quiet_result(result)
            },
            TasEditorAction::SetDigital { cursor, player, field, mask, pressed } => {
                let result = self.edit_digital_input(cursor, player, field, mask, Some(pressed));
                quiet_result(result)
            },
            TasEditorAction::ToggleColecoControl { cursor, player, control } => {
                let result = self.toggle_coleco_control(cursor, player, control);
                quiet_result(result)
            },
            TasEditorAction::SetColecoKeypad { cursor, player, key } => {
                let result = self.set_coleco_keypad(cursor, player, key);
                quiet_result(result)
            },
            TasEditorAction::InsertNeutralFrames { cursor, count } => self.insert_frames(cursor, count),
            TasEditorAction::DeleteFrames { start, count } => self.delete_frames(start, count),
            TasEditorAction::StartRecordingAtEnd => {
                let result = self.start_frame_recording();
                lift_message(result)
            },
            TasEditorAction::CaptureRecordingFrame => {
                let result = self.capture_recording_frame();
                lift_message(result)
            },
            TasEditorAction::StopRecording => Ok(self.stop_frame_recording()),
            TasEditorAction::ForkBranch { id, name } => self.fork_branch(id.as_str(), name.as_str()),
            TasEditorAction::DeleteBranchSubtree { id } => self.delete_branch_subtree(id.as_str()),
            TasEditorAction::RenameActiveBranch { name } => self.rename_active_branch(name.as_str()),
        }
    }

    /// Starts a file operation: it goes ahead at once unless the project has
    /// unsaved changes, in which case it waits for the user to save, discard
    /// or cancel (`ContinueFileRequest`, `CancelFileRequest`).
    pub fn begin_file_request(&mut self, request: TasEditorFileRequest) -> (r: Option<TasEditorFileRequest>)
        ensures
            (old(self).session is Some && old(self).session.unwrap()@.is_dirty()) ==> r is None
                && *final(self) == (TasEditorWindowState { pending_file_request: Some(request), ..*old(self) }),
            !(old(self).session is Some && old(self).session.unwrap()@.is_dirty()) ==> r == Some(request)
                && *final(self) == *old(self),
    {
        let dirty = match &self.session {
            Some(session) => session.is_dirty(),
            None => false,
        };
        if dirty {
            self.pending_file_request = Some(request);
            None
        } else {
            Some(request)
        }
    }

    /// Lets the waiting file operation go ahead, after saving the project
    /// when `save` asks for it; nothing happens when none is waiting.
    pub fn continue_file_request(&mut self, save: bool) -> (r: Result<Option<String>, TasEditorError>)
        requires
            old(self).wf(),
        ensures
            final(self).wf(),
            continue_file_outcome(*old(self), *final(self), save, r),
    {
        let request = match self.pending_file_request.take() {
            Some(request) => request,
            None => return Ok(None),
        };
        if save && self.session.is_some() {
            let saved = self.save_manual();
            if saved.is_err() {
                return saved;
            }
        }
        self.pending_host_request = Some(TasEditorHostRequest::File(request));
        Ok(None)
    }

    /// Records that the project was written to its manual file.
    pub fn save_manual(&mut self) -> (r: Result<Option<String>, TasEditorError>)
        requires
            old(self).wf(),
        ensures
            final(self).wf(),
            old(self).session is None ==> r == Err::<Option<String>, TasEditorError>(TasEditorError::NoProject) && *final(self) == *old(self),
            old(self).session is Some ==> r is Ok && final(self).session is Some && !final(self).session.unwrap()@.is_dirty()
                && final(self).session.unwrap()@.current == old(self).session.unwrap()@.current,
            *final(self) == (TasEditorWindowState { session: final(self).session, ..*old(self) }),
    {
        let mut session = match self.session.take() {
            Some(s) => s,
            None => return Err(TasEditorError::NoProject),
        };
        let ghost before = session@;
        session.mark_saved();
        proof {
            lemma_recording_stays_ok(self.recording, before, session@);
        }
        self.session = Some(session);
        Ok(Some(string_of("Saved TAS project")))
    }

    /// Copies the project into the autosave slot when it changed since the last autosave.
    pub fn autosave_now(&mut self) -> (r: Result<Option<String>, TasEditorError>)
        requires
            old(self).wf(),
        ensures
            final(self).wf(),
            old(self).session is None ==> r == Err::<Option<String>, TasEditorError>(TasEditorError::NoProject),
            old(self).session is Some ==> r is Ok && final(self).session is Some
                && final(self).session.unwrap()@.current == old(self).session.unwrap()@.current
                && final(self).session.unwrap()@.autosave is Some
                && final(self).session.unwrap()@.autosave.unwrap().edit_generation == old(self).session.unwrap()@.current.project.edit_generation,
    {
        let mut session = match self.session.take() {
            Some(s) => s,
            None => return Err(TasEditorError::NoProject),
        };
        let ghost before = session@;
        let saved = session.autosave_if_changed();
        proof {
            lemma_recording_stays_ok(self.recording, before, session@);
        }
        self.session = Some(session);
        match saved {
            Some(generation) => {
                let mut message = string_of("Autosave generation ");
                push_decimal(&mut message, generation);
                push_str(&mut message, " written");
                Ok(Some(message))
            },
            None => Ok(Some(string_of("Autosave already current"))),
        }
    }

    /// Replaces the project by its autosaved copy.
    pub fn recover_autosave(&mut self) -> (r: Result<Option<String>, TasEditorError>)
        requires
            old(self).wf(),
            old(self).recording is None,
        ensures
            final(self).wf(),
            old(self).session is None ==> r == Err::<Option<String>, TasEditorError>(TasEditorError::NoProject),
            r is Ok ==> final(self).session is Some && old(self).session.unwrap()@.autosave is Some
                && final(self).session.unwrap()@.current.project == old(self).session.unwrap()@.autosave.unwrap()
                && final(self).session.unwrap()@.source == crate::session::TasEditorSessionSource::Autosave,
            r is Err ==> (old(self).session is Some ==> final(self).session is Some
                && final(self).session.unwrap()@ == old(self).session.unwrap()@),
            old(self).session is Some ==> recover_answer(old(self).session.unwrap()@, r),
    {
        let mut session = match self.session.take() {
            Some(s) => s,
            None => return Err(TasEditorError::NoProject),
        };
        let result = session.recover_autosave();
        self.session = Some(session);
        match result {
            Ok(()) => {
                self.execution_preview = None;
                self.timeline_selection.rows = None;
                self.input_clipboard = crate::clipboard::TasInputClipboardState {
                    generation: if self.input_clipboard.generation < u64::MAX { self.input_clipboard.generation + 1 } else { self.input_clipboard.generation },
                    entry: None,
                };
                self.reset_active_branch_name();
                Ok(Some(string_of("Recovered the autosaved TAS project")))
            },
            Err(e) => Err(TasEditorError::Edit(e)),
        }
    }

    /// Steps back through the edit history.
    pub fn undo(&mut self) -> (r: Result<Option<String>, TasEditorError>)
        requires
            old(self).wf(),
            old(self).recording is None,
        ensures
            final(self).wf(),
            old(self).session is None ==> r == Err::<Option<String>, TasEditorError>(TasEditorError::NoProject),
            old(self).session is Some ==> final(self).session is Some && if old(self).session.unwrap()@.undo.len() > 0 {
                r is Ok && old(self).session.unwrap()@.undone(final(self).session.unwrap()@)
            } else {
                r == Err::<Option<String>, TasEditorError>(TasEditorError::NothingToUndo)
                    && final(self).session.unwrap()@ == old(self).session.unwrap()@
            },
    {
        let mut session = match self.session.take() {
            Some(s) => s,
            None => return Err(TasEditorError::NoProject),
        };
        let done = session.undo();
        self.session = Some(session);
        if !done {
            return Err(TasEditorError::NothingToUndo);
        }
        self.execution_preview = None;
        self.reset_active_branch_name();
        Ok(Some(string_of("Undid the last TAS edit")))
    }

    /// Steps forward through the edit history.
    pub fn redo(&mut self) -> (r: Result<Option<String>, TasEditorError>)
        requires
            old(self).wf(),
            old(self).recording is None,
        ensures
            final(self).wf(),
            old(self).session is None ==> r == Err::<Option<String>, TasEditorError>(TasEditorError::NoProject),
            old(self).session is Some ==> final(self).session is Some && if old(self).session.unwrap()@.redo.len() > 0 {
                r is Ok && old(self).session.unwrap()@.redone(final(self).session.unwrap()@)
            } else {
                r == Err::<Option<String>, TasEditorError>(TasEditorError::NothingToRedo)
                    && final(self).session.unwrap()@ == old(self).session.unwrap()@
            },
    {
        let mut session = match self.session.take() {
            Some(s) => s,
            None => return Err(TasEditorError::NoProject),
        };
        let done = session.redo();
        self.session = Some(session);
        if !done {
            return Err(TasEditorError::NothingToRedo);
        }
        self.execution_preview = None;
        self.reset_active_branch_name();
        Ok(Some(string_of("Redid the TAS edit")))
    }

    /// Selects the branch called `id`.
    pub fn select_branch(&mut self, id: &str) -> (r: Result<Option<String>, TasEditorError>)
        requires
            old(self).wf(),
            old(self).recording is None,
        ensures
            final(self).wf(),
            old(self).session is None ==> r == Err::<Option<String>, TasEditorError>(TasEditorError::NoProject),
            old(self).session is Some ==> final(self).session is Some && match r {
                Ok(_) => old(self).session.unwrap()@.current.project.has_branch(id@)
                    && final(self).session.unwrap()@.branch().id == id@
                    && final(self).active_branch_name@ == final(self).session.unwrap()@.branch().name,
                Err(_) => final(self).session.unwrap()@ == old(self).session.unwrap()@,
            },
            old(self).session is Some ==> select_branch_answer(old(self).session.unwrap()@, id@, r),
    {
        let mut session = match self.session.take() {
            Some(s) => s,
            None => return Err(TasEditorError::NoProject),
        };
        let result = session.select_branch(id);
        self.session = Some(session);
        match result {
            Ok(()) => {
                self.execution_preview = None;
                self.timeline_follow_selection = true;
                self.reset_active_branch_name();
                Ok(None)
            },
            Err(e) => Err(TasEditorError::Edit(e)),
        }
    }

    /// Forks the selected branch at the cursor into branch `id` and selects it.
    pub fn fork_branch(&mut self, id: &str, name: &str) -> (r: Result<Option<String>, TasEditorError>)
        requires
            old(self).wf(),
            old(self).recording is None,
        ensures
            final(self).wf(),
            old(self).session is None ==> r == Err::<Option<String>, TasEditorError>(TasEditorError::NoProject),
            old(self).session is Some ==> final(self).session is Some && match r {
                Ok(_) => final(self).session.unwrap()@.branch().id == id@
                    && final(self).session.unwrap()@.cursor() == old(self).session.unwrap()@.cursor()
                    && final(self).session.unwrap()@.frames() == old(self).session.unwrap()@.frames(),
                Err(_) => final(self).session.unwrap()@ == old(self).session.unwrap()@,
            },
            old(self).session is Some ==> fork_branch_answer(old(self).session.unwrap()@, id@, name@, r),
    {
        let mut session = match self.session.take() {
            Some(s) => s,
            None => return Err(TasEditorError::NoProject),
        };
        let result = session.fork_branch(id, name);
        self.session = Some(session);
        match result {
            Ok(()) => {
                self.execution_preview = None;
                self.reset_active_branch_name();
                let mut message = string_of("Created branch ");
                push_str(&mut message, id);
                Ok(Some(message))
            },
            Err(e) => Err(TasEditorError::Edit(e)),
        }
    }

    /// Renames the selected branch.
    pub fn rename_active_branch(&mut self, name: &str) -> (r: Result<Option<String>, TasEditorError>)
        requires
            old(self).wf(),
            old(self).recording is None,
        ensures
            final(self).wf(),
            old(self).session is None ==> r == Err::<Option<String>, TasEditorError>(TasEditorError::NoProject),
            old(self).session is Some ==> final(self).session is Some && match r {
                Ok(_) => final(self).session.unwrap()@.branch().name == crate::text::spec_trim(name@)
                    && final(self).active_branch_name@ == crate::text::spec_trim(name@),
                Err(_) => final(self).session.unwrap()@ == old(self).session.unwrap()@,
            },
            old(self).session is Some ==> rename_branch_answer(old(self).session.unwrap()@, name@, r),
    {
        let mut session = match self.session.take() {
            Some(s) => s,
            None => return Err(TasEditorError::NoProject),
        };
        let result = session.rename_selected_branch(name);
        self.session = Some(session);
        match result {
            Ok(_) => {
                self.reset_active_branch_name();
                Ok(None)
            },
            Err(e) => Err(TasEditorError::Edit(e)),
        }
    }

    /// Inserts `count` neutral rows before row `cursor`; the first new row is selected.
    pub fn insert_frames(&mut self, cursor: u64, count: u64) -> (r: Result<Option<String>, TasEditorError>)
        requires
            old(self).wf(),
            old(self).recording is None,
        ensures
            final(self).wf(),
            old(self).session is None ==> r == Err::<Option<String>, TasEditorError>(TasEditorError::NoProject),
            old(self).session is Some ==> final(self).session is Some && match r {
                Ok(_) => final(self).session.unwrap()@.frames() == crate::timeline_edit::frames_after_insert(
                    old(self).session.unwrap()@.frames(), cursor as int, count as nat)
                    && final(self).session.unwrap()@.cursor() == cursor,
                Err(_) => final(self).session.unwrap()@ == old(self).session.unwrap()@,
            },
            old(self).session is Some ==> match crate::session::spec_insert_refusal(old(self).session.unwrap()@, cursor, count) {
                Some(e) => r == Err::<Option<String>, TasEditorError>(TasEditorError::Edit(e)),
                None => r is Ok,
            },
    {
        let mut session = match self.session.take() {
            Some(s) => s,
            None => return Err(TasEditorError::NoProject),
        };
        let ghost before = session@;
        let mut result = session.insert_neutral_frames(cursor, count);
        if result.is_ok() {
            let moved = session.set_cursor(cursor);
            if moved.is_err() {
                result = Err(TasEditError::OutsideBranch);
            }
        }
        proof {
            lemma_recording_stays_ok(self.recording, before, session@);
        }
        self.session = Some(session);
        match result {
            Ok(()) => {
                let total = match &self.session {
                    Some(s) => s.frame_count(),
                    None => 0,
                };
                self.timeline_selection.collapse_to_cursor(cursor, total);
                self.timeline_follow_selection = true;
                self.execution_preview = None;
                self.queue_linked_edit_reconstruction(cursor, cursor + 1);
                Ok(None)
            },
            Err(e) => Err(TasEditorError::Edit(e)),
        }
    }

    /// Deletes `count` rows from row `start`.
    pub fn delete_frames(&mut self, start: u64, count: u64) -> (r: Result<Option<String>, TasEditorError>)
        requires
            old(self).wf(),
            old(self).recording is None,
        ensures
            final(self).wf(),
            old(self).session is None ==> r == Err::<Option<String>, TasEditorError>(TasEditorError::NoProject),
            old(self).session is Some ==> final(self).session is Some && match r {
                Ok(_) => final(self).session.unwrap()@.frames() == crate::timeline_edit::frames_after_delete(
                    old(self).session.unwrap()@.frames(), start as int, count as int)
                    && final(self).session.unwrap()@.cursor() == crate::timeline_edit::cursor_after_delete(
                        old(self).session.unwrap()@.cursor(), start, count),
                Err(_) => final(self).session.unwrap()@ == old(self).session.unwrap()@,
            },
            old(self).session is Some ==> delete_frames_answer(old(self).session.unwrap()@, start, count, r),
    {
        let mut session = match self.session.take() {
            Some(s) => s,
            None => return Err(TasEditorError::NoProject),
        };
        let ghost before = session@;
        let result = session.delete_frames(start, count);
        proof {
            lemma_recording_stays_ok(self.recording, before, session@);
        }
        self.session = Some(session);
        match result {
            Ok(()) => {
                self.execution_preview = None;
                self.queue_linked_edit_reconstruction(start, start + 1);
                Ok(None)
            },
            Err(e) => Err(TasEditorError::Edit(e)),
        }
    }

    /// Deletes branch `id` and every branch forked from it.
    pub fn delete_branch_subtree(&mut self, id: &str) -> (r: Result<Option<String>, TasEditorError>)
        requires
            old(self).wf(),
            old(self).recording is None,
        ensures
            final(self).wf(),
            old(self).session is None ==> r == Err::<Option<String>, TasEditorError>(TasEditorError::NoProject),
            old(self).session is Some ==> final(self).session is Some && match r {
                Ok(_) => final(self).session.unwrap()@.current.project.branches == crate::session::kept_branches(
                        old(self).session.unwrap()@.current.project.branches, id@,
                        old(self).session.unwrap()@.current.project.branches.len() as int)
                    && final(self).session.unwrap()@.branch().id == old(self).session.unwrap()@.branch().id,
                Err(_) => final(self).session.unwrap()@ == old(self).session.unwrap()@,
            },
            old(self).session is Some ==> delete_subtree_answer(old(self).session.unwrap()@,
                final(self).session.unwrap()@, id@, r),
    {
        let mut session = match self.session.take() {
            Some(s) => s,
            None => return Err(TasEditorError::NoProject),
        };
        let result = session.delete_branch_subtree(id);
        self.session = Some(session);
        match result {
            Ok(removed) => {
                self.execution_preview = None;
                let mut message = string_of("Deleted ");
                push_decimal(&mut message, removed as u64);
                push_str(&mut message, " branches");
                Ok(Some(message))
            },
            Err(e) => Err(TasEditorError::Edit(e)),
        }
    }

    /// Reselects the boundary the linked game stands at, without moving the game.
    pub fn select_live_execution_boundary(&mut self) -> (r: Result<Option<String>, TasEditorError>)
        requires
            old(self).wf(),
        ensures
            final(self).wf(),
            live_boundary_outcome(*old(self), *final(self), r),
    {
        let boundary = match self.live_status.execution_boundary() {
            Some(b) => b,
            None => return Err(TasEditorError::NotLinked),
        };
        let mut session = match self.session.take() {
            Some(s) => s,
            None => return Err(TasEditorError::NoProject),
        };
        let ghost before = session@;
        let moved = session.set_cursor(boundary);
        let count = session.frame_count();
        self.session = Some(session);
        match moved {
            Ok(()) => {
                self.timeline_selection.collapse_to_cursor(boundary, count);
                self.timeline_follow_selection = true;
                Ok(None)
            },
            Err(e) => Err(TasEditorError::Edit(e)),
        }
    }

    /// Asks the host to run the private execution engine to `target`.
    pub fn execute_private_seek(&mut self, target: u64) -> (r: Result<(), TasEditorError>)
        requires
            old(self).wf(),
        ensures
            final(self).wf(),
            private_seek_outcome(*old(self), *final(self), target, r),
    {
        if !matches!(self.execution_availability, TasEditorExecutionAvailability::Ready) {
            return Err(TasEditorError::ExecutionNotAttached);
        }
        let count = match &self.session {
            Some(s) => s.frame_count(),
            None => return Err(TasEditorError::NoProject),
        };
        if target > count {
            return Err(TasEditorError::SeekOutsideBranch);
        }
        self.pending_seek = Some(target);
        Ok(())
    }
}

} // verus!
