//! The editor's side of the live link, of private execution, and of the
//! periodic autosave: decisions on plain values that the host acts on.
use vstd::prelude::*;

use crate::editor::{
    TasEditorAction, TasEditorError, TasEditorExecutionAvailability, TasEditorWindowState,
    lemma_recording_stays_ok,
};
use crate::editor_reduce::spec_gate;
use crate::input_columns::DigitalField;
use crate::live::{
    TasEditorHostRequest, TasEditorLiveAction, TasEditorLiveStatus, TasLiveRecordingMode,
    spec_execution_boundary, spec_holds_authority, spec_requires_return_on_close,
};
use crate::limits::MAX_EDITOR_SEEK_EXECUTION_FRAMES;
use crate::session::{SessionModel, TasEditorSession, TasPreparedLiveFrame};
use crate::text::{decimal, push_decimal, push_str, string_of};

verus! {

/// A digital control named by the live link: a button or direction mask.
#[derive(Clone, Copy, Debug, PartialEq, Eq, Structural)]
pub enum TasDigitalInput {
    Buttons(u8),
    Dpad(u8),
}

/// What the host reports when it tries to attach private execution.
#[derive(Debug, PartialEq, Eq)]
pub enum TasEditorExecutionAttachment {
    /// The engine for the loaded game loaded the open project.
    Available,
    /// The engine for the loaded game could not load the open project, for this reason.
    Rejected(String),
    /// No engine can run, for this reason.
    Unavailable(String),
}

/// What a private seek reached.
#[derive(Clone, Debug, PartialEq, Eq)]
pub struct TasEditorExecutionOutcome {
    pub cursor: u64,
    pub requested_cursor: u64,
    pub executed_frames: u64,
    pub cache_store_error: Option<String>,
}

/// Milliseconds between periodic autosaves.
pub const AUTOSAVE_INTERVAL_MS: u64 = 30000;

/// What one periodic autosave tick did.
#[derive(Clone, Copy, Debug, PartialEq, Eq, Structural)]
pub enum TasEditorAutosaveTick {
    /// The clock started; nothing is written yet.
    Armed,
    /// Not yet time.
    Waiting,
    /// The autosave slot already holds this generation.
    Current,
    /// This generation was copied to the autosave slot.
    Saved(u64),
}

/// The boundary a "play through the selected row" request runs to.
pub open spec fn spec_playback_target(cursor: u64, frame_count: u64) -> u64 {
    if cursor < frame_count { (cursor + 1) as u64 } else { frame_count }
}

/// The boundary after the selected row, clamped to the end of the movie.
pub fn selected_frame_playback_target(cursor: u64, frame_count: u64) -> (r: u64)
    ensures
        r == spec_playback_target(cursor, frame_count),
{
    if cursor < frame_count {
        cursor + 1
    } else {
        frame_count
    }
}

/// The status line after a private seek.
pub open spec fn spec_execution_message(o: TasEditorExecutionOutcome) -> Seq<char> {
    let cache = match o.cache_store_error {
        Some(e) => "; seek-cache write skipped: "@ + e@,
        None => Seq::empty(),
    };
    if o.cursor == o.requested_cursor {
        "Preview reached cursor "@ + decimal(o.cursor as nat) + " (executed "@ + decimal(o.executed_frames as nat)
            + " frames)"@ + cache
    } else {
        "Preview reached cursor "@ + decimal(o.cursor as nat) + " of requested "@ + decimal(o.requested_cursor as nat)
            + " ("@ + decimal((o.requested_cursor - o.cursor) as nat) + " frames remain; at most "@
            + decimal(MAX_EDITOR_SEEK_EXECUTION_FRAMES as nat) + " execute per request)"@ + cache
    }
}

/// The status line after a private seek.
pub fn execution_message(outcome: &TasEditorExecutionOutcome) -> (r: String)
    requires
        outcome.cursor <= outcome.requested_cursor,
    ensures
        r@ == spec_execution_message(*outcome),
{
    let mut s = string_of("Preview reached cursor ");
    push_decimal(&mut s, outcome.cursor);
    if outcome.cursor == outcome.requested_cursor {
        push_str(&mut s, " (executed ");
        push_decimal(&mut s, outcome.executed_frames);
        push_str(&mut s, " frames)");
    } else {
        push_str(&mut s, " of requested ");
        push_decimal(&mut s, outcome.requested_cursor);
        push_str(&mut s, " (");
        push_decimal(&mut s, outcome.requested_cursor - outcome.cursor);
        push_str(&mut s, " frames remain; at most ");
        push_decimal(&mut s, MAX_EDITOR_SEEK_EXECUTION_FRAMES);
        push_str(&mut s, " execute per request)");
    }
    match &outcome.cache_store_error {
        Some(e) => {
            push_str(&mut s, "; seek-cache write skipped: ");
            push_str(&mut s, e.as_str());
        },
        None => {},
    }
    proof {
        assert(s@ =~= spec_execution_message(*outcome));
    }
    s
}

/// What a periodic autosave tick at `now` decides, for a clock armed at
/// `armed_at`, a slot holding generation `autosaved` and a project at `generation`.
pub open spec fn spec_autosave_tick(armed_at: Option<u64>, now: u64, autosaved: Option<u64>, generation: u64) -> TasEditorAutosaveTick {
    match armed_at {
        None => TasEditorAutosaveTick::Armed,
        Some(t) => if now < t || now - t < AUTOSAVE_INTERVAL_MS {
            TasEditorAutosaveTick::Waiting
        } else if autosaved == Some(generation) {
            TasEditorAutosaveTick::Current
        } else {
            TasEditorAutosaveTick::Saved(generation)
        },
    }
}

/// Once a periodic tick has written a generation, later ticks never write it
/// again: until the project changes they report it current or wait.
pub proof fn law_autosave_writes_a_generation_once(
    armed_at: Option<u64>,
    first: u64,
    later: u64,
    autosaved: Option<u64>,
    generation: u64,
)
    requires
        spec_autosave_tick(armed_at, first, autosaved, generation) == TasEditorAutosaveTick::Saved(generation),
    ensures
        spec_autosave_tick(Some(first), later, Some(generation), generation) != TasEditorAutosaveTick::Saved(generation),
{
}

impl TasEditorWindowState {
    /// Installs a new live status and the host requests it implies.
    pub fn set_live_status(&mut self, status: TasEditorLiveStatus)
        ensures
            ({
                let dropped = status is Acquiring || status is Terminal || !spec_holds_authority(status);
                let keep = !dropped && old(self).close_keep_after_live_command;
                *final(self) == (TasEditorWindowState {
                    live_status: status,
                    execution_preview: if status is Acquiring { None } else { old(self).execution_preview },
                    linked_session_active: if status is Linked { true } else if dropped { false } else { old(self).linked_session_active },
                    close_keep_after_live_command: if status is Linked { false } else { keep },
                    pending_host_request: if status is Linked && keep {
                        Some(TasEditorHostRequest::Live(TasEditorLiveAction::KeepResultAndReturnToGame))
                    } else {
                        old(self).pending_host_request
                    },
                    ..*old(self)
                })
            }),
    {
        if matches!(status, TasEditorLiveStatus::Acquiring) {
            self.execution_preview = None;
            self.linked_session_active = false;
            self.close_keep_after_live_command = false;
        }
        if matches!(status, TasEditorLiveStatus::Terminal(_)) || !status.holds_authority() {
            self.linked_session_active = false;
            self.close_keep_after_live_command = false;
        }
        if matches!(status, TasEditorLiveStatus::Linked { .. }) {
            self.linked_session_active = true;
            if self.close_keep_after_live_command {
                self.close_keep_after_live_command = false;
                self.pending_host_request = Some(TasEditorHostRequest::Live(TasEditorLiveAction::KeepResultAndReturnToGame));
            }
        }
        self.live_status = status;
    }

    /// Hands the pending host request over, leaving none.
    pub fn take_pending_host_request(&mut self) -> (r: Option<TasEditorHostRequest>)
        ensures
            r == old(self).pending_host_request,
            *final(self) == (TasEditorWindowState { pending_host_request: None, ..*old(self) }),
    {
        self.pending_host_request.take()
    }

    /// Hands the pending private seek over, leaving none.
    pub fn take_pending_seek(&mut self) -> (r: Option<u64>)
        ensures
            r == old(self).pending_seek,
            *final(self) == (TasEditorWindowState { pending_seek: None, ..*old(self) }),
    {
        self.pending_seek.take()
    }

    pub fn live_status(&self) -> (r: &TasEditorLiveStatus)
        ensures
            *r == self.live_status,
    {
        &self.live_status
    }

    pub fn live_recording_mode(&self) -> (r: TasLiveRecordingMode)
        ensures
            r == self.live_recording_mode,
    {
        self.live_recording_mode
    }

    pub fn set_live_recording_mode(&mut self, mode: TasLiveRecordingMode)
        ensures
            *final(self) == (TasEditorWindowState { live_recording_mode: mode, ..*old(self) }),
    {
        self.live_recording_mode = mode;
    }

    /// Moves the cursor on behalf of the live link.
    pub fn select_cursor_for_live_control(&mut self, cursor: u64) -> (r: Result<(), TasEditorError>)
        requires
            old(self).wf(),
        ensures
            final(self).wf(),
            spec_gate(*old(self), TasEditorAction::SelectCursor(cursor)) is Some ==> r is Err && *final(self) == *old(self),
            spec_gate(*old(self), TasEditorAction::SelectCursor(cursor)) is None ==> crate::editor_input::selection_change_outcome(
                *old(self), *final(self), crate::editor_input::TasTimelineSelectionChange::Boundary(cursor), r),
    {
        match self.reduce(TasEditorAction::SelectCursor(cursor)) {
            Ok(_) => Ok(()),
            Err(e) => Err(e),
        }
    }

    /// Selects rows `start..end` on behalf of the live link.
    pub fn select_input_range_for_live_control(&mut self, start: u64, end: u64) -> (r: Result<(), TasEditorError>)
        requires
            old(self).wf(),
        ensures
            final(self).wf(),
            old(self).session is None ==> r == Err::<(), TasEditorError>(TasEditorError::NoProject),
            old(self).session is Some && !(start < end && end <= old(self).session.unwrap()@.frames().len())
                ==> r == Err::<(), TasEditorError>(TasEditorError::InvalidSelection) && *final(self) == *old(self),
    {
        let count = match &self.session {
            Some(s) => s.frame_count(),
            None => return Err(TasEditorError::NoProject),
        };
        if start >= end || end > count {
            return Err(TasEditorError::InvalidSelection);
        }
        match self.reduce(TasEditorAction::SelectTimelineRange { anchor: start, active: end - 1 }) {
            Ok(_) => Ok(()),
            Err(e) => Err(e),
        }
    }

    /// The selected rows `start..end`, for the live link.
    pub fn selected_input_range_for_live_control(&self) -> (r: Result<Option<(u64, u64)>, TasEditorError>)
        requires
            self.wf(),
        ensures
            self.session is None ==> r == Err::<Option<(u64, u64)>, TasEditorError>(TasEditorError::NoProject),
            self.session is Some ==> r == Ok::<Option<(u64, u64)>, TasEditorError>(crate::selection::spec_selected_range(
                self.timeline_selection.rows, self.session.unwrap()@.frames().len() as u64)),
    {
        match &self.session {
            Some(s) => Ok(self.timeline_selection.selected_range(s)),
            None => Err(TasEditorError::NoProject),
        }
    }

    /// Deletes the selected rows on behalf of the live link.
    pub fn delete_selected_input_range_for_live_control(&mut self) -> (r: Result<(), TasEditorError>)
        requires
            old(self).wf(),
        ensures
            final(self).wf(),
            old(self).session is Some && crate::selection::spec_selected_range(old(self).timeline_selection.rows,
                old(self).session.unwrap()@.frames().len() as u64) is None
                ==> r == Err::<(), TasEditorError>(TasEditorError::NoSelection) && *final(self) == *old(self),
    {
        let (start, end) = match self.selected_input_range_for_live_control() {
            Ok(Some(range)) => range,
            Ok(None) => return Err(TasEditorError::NoSelection),
            Err(e) => return Err(e),
        };
        match self.reduce(TasEditorAction::DeleteFrames { start, count: end - start }) {
            Ok(_) => Ok(()),
            Err(e) => Err(e),
        }
    }

    /// Inserts neutral rows on behalf of the live link.
    pub fn insert_neutral_frames_for_live_control(&mut self, boundary: u64, count: u64) -> (r: Result<(), TasEditorError>)
        requires
            old(self).wf(),
        ensures
            final(self).wf(),
            spec_gate(*old(self), TasEditorAction::InsertNeutralFrames { cursor: boundary, count }) is Some ==> r is Err && *final(self) == *old(self),
            spec_gate(*old(self), TasEditorAction::InsertNeutralFrames { cursor: boundary, count }) is None ==> match old(self).session {
                None => r == Err::<(), TasEditorError>(TasEditorError::NoProject),
                Some(s) => final(self).session is Some && match crate::session::spec_insert_refusal(s@, boundary, count) {
                    Some(e) => r == Err::<(), TasEditorError>(TasEditorError::Edit(e)) && final(self).session.unwrap()@ == s@,
                    None => r is Ok && final(self).session.unwrap()@.cursor() == boundary
                        && final(self).session.unwrap()@.frames() == crate::timeline_edit::frames_after_insert(
                            s@.frames(), boundary as int, count as nat),
                },
            },
    {
        match self.reduce(TasEditorAction::InsertNeutralFrames { cursor: boundary, count }) {
            Ok(_) => Ok(()),
            Err(e) => Err(e),
        }
    }

    /// Presses or releases a control of player `player` (1 to 5) at `frame`
    /// on behalf of the live link.
    pub fn set_digital_input_for_live_control(&mut self, frame: u64, player: u8, input: TasDigitalInput, pressed: bool) -> (r: Result<(), TasEditorError>)
        requires
            old(self).wf(),
        ensures
            final(self).wf(),
            !(1 <= player <= 5) ==> r == Err::<(), TasEditorError>(TasEditorError::InvalidColumn) && *final(self) == *old(self),
    {
        if player < 1 || player > 5 {
            return Err(TasEditorError::InvalidColumn);
        }
        let (field, mask) = match input {
            TasDigitalInput::Buttons(m) => (DigitalField::Buttons, m),
            TasDigitalInput::Dpad(m) => (DigitalField::Dpad, m),
        };
        match self.reduce(TasEditorAction::SetDigital { cursor: frame, player: (player - 1) as usize, field, mask, pressed }) {
            Ok(_) => Ok(()),
            Err(e) => Err(e),
        }
    }

    /// Moves the cursor to the end of the movie on behalf of the live link.
    pub fn select_end_cursor_for_live_control(&mut self) -> (r: Result<(), TasEditorError>)
        requires
            old(self).wf(),
        ensures
            final(self).wf(),
            old(self).session is None ==> r == Err::<(), TasEditorError>(TasEditorError::NoProject),
    {
        let count = match &self.session {
            Some(s) => s.frame_count(),
            None => return Err(TasEditorError::NoProject),
        };
        self.select_cursor_for_live_control(count)
    }

    /// Creates a branch at the boundary the linked game stands at.
    pub fn fork_branch_at_linked_boundary_for_live_control(&mut self, boundary: u64, id: String, name: String) -> (r: Result<(), TasEditorError>)
        requires
            old(self).wf(),
        ensures
            final(self).wf(),
            old(self).session is Some && old(self).session.unwrap()@.cursor() != boundary
                ==> r == Err::<(), TasEditorError>(TasEditorError::LinkedBoundary) && *final(self) == *old(self),
    {
        let selected = match &self.session {
            Some(s) => s.cursor(),
            None => return Err(TasEditorError::NoProject),
        };
        if selected != boundary {
            return Err(TasEditorError::LinkedBoundary);
        }
        match self.reduce(TasEditorAction::ForkBranch { id, name }) {
            Ok(_) => Ok(()),
            Err(e) => Err(e),
        }
    }

    /// Commits a frame recorded by the live link.
    pub fn commit_prepared_live_frame(&mut self, prepared: &TasPreparedLiveFrame) -> (r: Result<(), TasEditorError>)
        requires
            old(self).wf(),
        ensures
            final(self).wf(),
            final(self).recording == old(self).recording,
            r is Err ==> (old(self).session is Some ==> final(self).session is Some
                && final(self).session.unwrap()@ == old(self).session.unwrap()@),
            old(self).session is None ==> r == Err::<(), TasEditorError>(TasEditorError::NoProject),
            old(self).session is Some ==> final(self).session is Some
                && (r is Ok || r matches Err(TasEditorError::Edit(_)))
                && crate::session::live_commit_result(old(self).session.unwrap()@, final(self).session.unwrap()@, *prepared,
                    match r { Ok(v) => Ok(v), Err(e) => Err(e->Edit_0) }),
            r is Ok ==> final(self).execution_preview is None,
    {
        let mut session = match self.session.take() {
            Some(s) => s,
            None => return Err(TasEditorError::NoProject),
        };
        let ghost before = session@;
        let result = session.commit_prepared_live_frame(prepared);
        proof {
            lemma_recording_stays_ok(self.recording, before, session@);
        }
        self.session = Some(session);
        match result {
            Ok(()) => {
                self.execution_preview = None;
                Ok(())
            },
            Err(e) => Err(TasEditorError::Edit(e)),
        }
    }

    /// Opens a live recording history group.
    pub fn begin_live_recording_history_group(&mut self) -> (r: Result<(), TasEditorError>)
        requires
            old(self).wf(),
        ensures
            final(self).wf(),
            old(self).session is None ==> r == Err::<(), TasEditorError>(TasEditorError::NoProject),
    {
        let mut session = match self.session.take() {
            Some(s) => s,
            None => return Err(TasEditorError::NoProject),
        };
        let result = session.begin_live_recording_history_group();
        self.session = Some(session);
        match result {
            Ok(()) => Ok(()),
            Err(e) => Err(TasEditorError::Edit(e)),
        }
    }

    /// Closes the live recording history group; `false` when none was open
    /// or it recorded nothing.
    pub fn end_live_recording_history_group(&mut self) -> (r: Result<bool, TasEditorError>)
        requires
            old(self).wf(),
        ensures
            final(self).wf(),
            old(self).session is None ==> r == Err::<bool, TasEditorError>(TasEditorError::NoProject),
            old(self).session is Some ==> r == Ok::<bool, TasEditorError>(match old(self).session.unwrap()@.history_group {
                Some(recorded) => recorded,
                None => false,
            }),
    {
        let mut session = match self.session.take() {
            Some(s) => s,
            None => return Err(TasEditorError::NoProject),
        };
        if !session.live_recording_history_group_active() {
            self.session = Some(session);
            return Ok(false);
        }
        let result = session.end_live_recording_history_group();
        self.session = Some(session);
        match result {
            Ok(recorded) => Ok(recorded),
            Err(_) => Ok(false),
        }
    }

    /// Asks the host to hand the game back unchanged when the editor closes.
    pub fn queue_return_to_game_unchanged(&mut self)
        ensures
            final(self).session == old(self).session,
            old(self).live_status is Linked ==> final(self).pending_host_request
                == Some(TasEditorHostRequest::Live(TasEditorLiveAction::KeepResultAndReturnToGame)),
            !(old(self).live_status is Linked) && old(self).linked_session_active
                && spec_requires_return_on_close(old(self).live_status) ==> final(self).close_keep_after_live_command
                && final(self).pending_host_request == match old(self).live_status {
                    TasEditorLiveStatus::Recording => Some(TasEditorHostRequest::Live(TasEditorLiveAction::StopRealtimeRecording)),
                    TasEditorLiveStatus::Playing { .. } => Some(TasEditorHostRequest::Live(TasEditorLiveAction::PausePlayback)),
                    _ => old(self).pending_host_request,
                },
            !(old(self).live_status is Linked) && !old(self).linked_session_active
                && spec_requires_return_on_close(old(self).live_status) ==> final(self).pending_host_request
                == Some(TasEditorHostRequest::Live(TasEditorLiveAction::ReturnToGameUnchanged)),
            !(old(self).live_status is Linked) && !spec_requires_return_on_close(old(self).live_status)
                ==> *final(self) == *old(self),
    {
        if self.live_status.is_linked() {
            self.pending_host_request = Some(TasEditorHostRequest::Live(TasEditorLiveAction::KeepResultAndReturnToGame));
        } else if self.linked_session_active && self.live_status.requires_return_on_close() {
            self.close_keep_after_live_command = true;
            match &self.live_status {
                TasEditorLiveStatus::Recording => {
                    self.pending_host_request = Some(TasEditorHostRequest::Live(TasEditorLiveAction::StopRealtimeRecording));
                },
                TasEditorLiveStatus::Playing { .. } => {
                    self.pending_host_request = Some(TasEditorHostRequest::Live(TasEditorLiveAction::PausePlayback));
                },
                _ => {},
            }
        } else if self.live_status.requires_return_on_close() {
            self.pending_host_request = Some(TasEditorHostRequest::Live(TasEditorLiveAction::ReturnToGameUnchanged));
        }
    }

    /// Records what the host reported when attaching private execution.
    pub fn attach_execution(&mut self, attachment: TasEditorExecutionAttachment)
        ensures
            final(self).session == old(self).session,
            final(self).recording == old(self).recording,
            final(self).execution_preview is None,
            final(self).pending_seek is None,
            final(self).execution_availability == match attachment {
                TasEditorExecutionAttachment::Available => if old(self).session is Some {
                    TasEditorExecutionAvailability::Ready
                } else {
                    TasEditorExecutionAvailability::GameReady
                },
                TasEditorExecutionAttachment::Rejected(e) => if old(self).session is Some {
                    TasEditorExecutionAvailability::Unavailable(e)
                } else {
                    TasEditorExecutionAvailability::GameReady
                },
                TasEditorExecutionAttachment::Unavailable(reason) => TasEditorExecutionAvailability::Unavailable(reason),
            },
    {
        self.execution_preview = None;
        self.pending_seek = None;
        match attachment {
            TasEditorExecutionAttachment::Available => {
                if self.session.is_none() {
                    self.execution_availability = TasEditorExecutionAvailability::GameReady;
                    return;
                }
                self.execution_availability = TasEditorExecutionAvailability::Ready;
                self.message = Some((false, string_of("Offline playback ready")));
            },
            TasEditorExecutionAttachment::Rejected(e) => {
                if self.session.is_none() {
                    self.execution_availability = TasEditorExecutionAvailability::GameReady;
                    return;
                }
                self.execution_availability = TasEditorExecutionAvailability::Unavailable(e);
                self.message = Some((true, string_of("Private TAS execution was not attached")));
            },
            TasEditorExecutionAttachment::Unavailable(reason) => {
                self.execution_availability = TasEditorExecutionAvailability::Unavailable(reason);
                self.message = Some((false, string_of("Private TAS execution unavailable")));
            },
        }
    }

    /// Detaches private execution when the host found that the engine no
    /// longer fits the edited project (`validation` is its verdict).
    pub fn detach_incompatible_execution(&mut self, validation: Result<(), String>) -> (r: Option<String>)
        ensures
            final(self).session == old(self).session,
            match validation {
                Ok(()) => r is None && *final(self) == *old(self),
                Err(e) => r == Some(e) && *final(self) == (TasEditorWindowState {
                    pending_seek: None,
                    execution_availability: final(self).execution_availability,
                    ..*old(self)
                }) && final(self).execution_availability
                    == TasEditorExecutionAvailability::Unavailable(final(self).execution_availability->Unavailable_0),
            },
    {
        match validation {
            Ok(()) => None,
            Err(e) => {
                self.pending_seek = None;
                self.execution_availability = TasEditorExecutionAvailability::Unavailable(
                    string_of("The edited project no longer matches the loaded game"),
                );
                Some(e)
            },
        }
    }

    /// Whether the timeline offers to show the linked game's position: a
    /// game stands at a boundary other than the selected one.
    pub fn game_position_elsewhere(&self) -> (r: bool)
        ensures
            r == (self.session is Some && spec_execution_boundary(self.live_status) is Some
                && spec_execution_boundary(self.live_status).unwrap() != self.session.unwrap()@.cursor()),
    {
        match (&self.session, self.live_status.execution_boundary()) {
            (Some(session), Some(boundary)) => boundary != session.cursor(),
            _ => false,
        }
    }

    /// Settles private execution after an edit that changed the movie, given
    /// the host's verdict on whether the engine still fits the project: when
    /// it does not, execution is detached and the edit's message says why.
    pub fn settle_execution_after_edit(&mut self, message: String, validation: Result<(), String>) -> (r: String)
        ensures
            final(self).session == old(self).session,
            r@ == match validation {
                Ok(()) => message@,
                Err(e) => message@ + "; private execution detached because the edited project no longer matches it: "@ + e@,
            },
            validation is Ok ==> *final(self) == *old(self),
            validation is Err ==> final(self).pending_seek is None && final(self).execution_availability
                == TasEditorExecutionAvailability::Unavailable(final(self).execution_availability->Unavailable_0),
    {
        match self.detach_incompatible_execution(validation) {
            None => message,
            Some(reason) => {
                let mut out = message;
                push_str(&mut out, "; private execution detached because the edited project no longer matches it: ");
                push_str(&mut out, reason.as_str());
                out
            },
        }
    }

    /// Installs what a private seek reached: the cursor moves there and the
    /// preview shows it.
    pub fn install_execution_outcome(&mut self, outcome: &TasEditorExecutionOutcome) -> (r: Result<String, TasEditorError>)
        requires
            old(self).wf(),
        ensures
            final(self).wf(),
            final(self).recording == old(self).recording,
            r is Ok ==> outcome.cursor <= outcome.requested_cursor && final(self).execution_preview == Some(outcome.cursor)
                && final(self).session.unwrap()@.cursor() == outcome.cursor
                && r.unwrap()@ == spec_execution_message(*outcome),
            r is Err ==> (old(self).session is Some ==> final(self).session is Some
                && final(self).session.unwrap()@ == old(self).session.unwrap()@),
            outcome.cursor > outcome.requested_cursor ==> r == Err::<String, TasEditorError>(TasEditorError::SeekOutsideBranch),
            outcome.cursor <= outcome.requested_cursor && old(self).session is None
                ==> r == Err::<String, TasEditorError>(TasEditorError::NoProject),
            outcome.cursor <= outcome.requested_cursor && old(self).session is Some ==> if outcome.cursor > old(self).session.unwrap()@.frames().len() {
                r == Err::<String, TasEditorError>(TasEditorError::Edit(crate::session::TasEditError::OutsideBranch))
            } else {
                r is Ok
            },
    {
        if outcome.cursor > outcome.requested_cursor {
            return Err(TasEditorError::SeekOutsideBranch);
        }
        let mut session = match self.session.take() {
            Some(s) => s,
            None => return Err(TasEditorError::NoProject),
        };
        let moved = session.set_cursor(outcome.cursor);
        self.session = Some(session);
        match moved {
            Ok(()) => {
                self.execution_preview = Some(outcome.cursor);
                Ok(execution_message(outcome))
            },
            Err(e) => Err(TasEditorError::Edit(e)),
        }
    }

    /// Shows a frame the linked game rendered at `cursor`.
    pub fn install_linked_frame(&mut self, cursor: u64) -> (r: Result<(), TasEditorError>)
        ensures
            old(self).session is None ==> r == Err::<(), TasEditorError>(TasEditorError::NoProject) && *final(self) == *old(self),
            old(self).session is Some ==> r is Ok && *final(self) == (TasEditorWindowState { execution_preview: Some(cursor), ..*old(self) }),
    {
        if self.session.is_none() {
            return Err(TasEditorError::NoProject);
        }
        self.execution_preview = Some(cursor);
        Ok(())
    }

    /// One tick of the periodic autosave at host time `now` (milliseconds).
    /// Nothing is written while a recording draft is open.
    pub fn tick_periodic_autosave_at(&mut self, now: u64) -> (r: Option<TasEditorAutosaveTick>)
        requires
            old(self).wf(),
        ensures
            final(self).wf(),
            (old(self).recording is Some || old(self).session is None) ==> r is None && *final(self) == *old(self),
            old(self).recording is None && old(self).session is Some ==> {
                let s = old(self).session.unwrap()@;
                let autosaved = match s.autosave { Some(p) => Some(p.edit_generation), None => None::<u64> };
                let tick = spec_autosave_tick(old(self).autosave_armed_at, now, autosaved, s.current.project.edit_generation);
                &&& r == Some(tick)
                &&& final(self).session is Some
                &&& final(self).session.unwrap()@.current == s.current
                &&& tick is Saved ==> final(self).session.unwrap()@.autosave == Some(s.current.project)
                &&& !(tick is Saved) ==> final(self).session.unwrap()@ == s
                &&& final(self).autosave_armed_at == match old(self).autosave_armed_at {
                    None => Some(now),
                    Some(t) => if tick is Saved { Some(now) } else { Some(t) },
                }
            },
    {
        if self.recording.is_some() {
            return None;
        }
        let mut session = match self.session.take() {
            Some(s) => s,
            None => return None,
        };
        let armed = match self.autosave_armed_at {
            None => {
                self.autosave_armed_at = Some(now);
                self.session = Some(session);
                return Some(TasEditorAutosaveTick::Armed);
            },
            Some(t) => t,
        };
        if now < armed || now - armed < AUTOSAVE_INTERVAL_MS {
            self.session = Some(session);
            return Some(TasEditorAutosaveTick::Waiting);
        }
        let ghost before = session@;
        let saved = session.autosave_if_changed();
        self.session = Some(session);
        match saved {
            Some(generation) => {
                self.autosave_armed_at = Some(now);
                let mut message = string_of("Periodic autosave generation ");
                push_decimal(&mut message, generation);
                push_str(&mut message, " written");
                self.message = Some((false, message));
                Some(TasEditorAutosaveTick::Saved(generation))
            },
            None => Some(TasEditorAutosaveTick::Current),
        }
    }

    /// Before the host shuts down: drops the recording draft and autosaves a
    /// project with unsaved changes; returns the generation autosaved.
    pub fn autosave_before_shutdown(&mut self) -> (r: Option<u64>)
        requires
            old(self).wf(),
        ensures
            final(self).wf(),
            final(self).recording is None,
            match r {
                Some(g) => final(self).session is Some && final(self).session.unwrap()@.autosave is Some
                    && final(self).session.unwrap()@.autosave.unwrap().edit_generation == g
                    && g == final(self).session.unwrap()@.current.project.edit_generation,
                None => true,
            },
    {
        self.discard_recording_draft();
        let mut session = match self.session.take() {
            Some(s) => s,
            None => return None,
        };
        if !session.is_dirty() {
            self.session = Some(session);
            return None;
        }
        let saved = session.autosave_if_changed();
        self.session = Some(session);
        saved
    }
}

} // verus!
