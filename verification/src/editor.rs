//! The editor window's state and its reducer: every user action goes through
//! `reduce`, which applies the live-session, export and recording gates
//! before handing the action to its handler.
use vstd::prelude::*;

use crate::coleco_input::ColecoControl;
use crate::input::TasColecoKeypadKey;
use crate::input_columns::DigitalField;
use crate::live::{
    TasEditorFileRequest, TasEditorHostRequest, TasEditorLiveAction, TasEditorLiveStatus, TasLiveRecordingMode,
    spec_locks_editor,
};
use crate::marked_ranges::{TasMarkedInputRangesState, TasMarkedRangesAction, TasMarkedRangesError};
use crate::metadata::{TasMetadataAction, TasMetadataEditorState, TasMetadataError};
use crate::digital_masks::TasMaskError;
use crate::clipboard::{TasClipboardError, TasInputClipboardState};
use crate::editor_clipboard::TasInputClipboardAction;
use crate::editor_events::{TasEventAction, TasEventError};
use crate::editor_edits::{TasAutofireError, TasSpecialMaskError};
use crate::pattern::TasPatternError;
use crate::project::TasProject;
use crate::ranges::TasRangeError;
use crate::selection::{TasTimelineNavigation, TasTimelineSelection};
use crate::session::{
    SessionModel, TasEditError, TasEditorSession, TasRecordingCheckpoint, checkpoint_ok,
    lemma_checkpoint_ok_grows,
};
use crate::special_input::{TasSpecialInputAction, TasSpecialInputError};
use crate::text::{clone_string, string_of};

verus! {

/// Where the editor is shown.
#[derive(Clone, Copy, Debug, PartialEq, Eq, Structural)]
pub enum TasEditorPresentation {
    Embedded,
    SeparateWindow,
}

/// Whether private (offline) execution can preview the movie.
#[derive(Clone, Debug, PartialEq, Eq)]
pub enum TasEditorExecutionAvailability {
    Unavailable(String),
    GameReady,
    Ready,
}

/// The row being entered by frame recording, and how to undo the draft.
#[derive(Debug)]
pub struct TasEditorRecordingState {
    pub branch_id: String,
    pub cursor: u64,
    pub checkpoint: TasRecordingCheckpoint,
}

/// A user action.
#[derive(Clone, Debug, PartialEq, Eq)]
pub enum TasEditorAction {
    SaveManual,
    Autosave,
    RecoverAutosave,
    ContinueFileRequest { save: bool },
    CancelFileRequest,
    CancelAutosaveRecovery,
    Undo,
    Redo,
    SelectBranch(String),
    SelectCursor(u64),
    SelectTimelineFrame { frame: u64, extend_selection: bool },
    SelectTimelineRange { anchor: u64, active: u64 },
    NavigateTimelineSelection { navigation: TasTimelineNavigation, extend_selection: bool },
    SelectAllTimelineFrames,
    ClearTimelineSelection,
    SelectLiveExecutionBoundary,
    RequestLiveGoToSelection,
    ExecuteSeek(u64),
    JumpToBranchDiffHunk(crate::summaries::TasBranchDiffJumpAction),
    MarkedRanges(TasMarkedRangesAction),
    InputClipboard(TasInputClipboardAction),
    Event(TasEventAction),
    Metadata(TasMetadataAction),
    SpecialInput(TasSpecialInputAction),
    ToggleDigital { cursor: u64, player: usize, field: DigitalField, mask: u8 },
    SetDigital { cursor: u64, player: usize, field: DigitalField, mask: u8, pressed: bool },
    ToggleColecoControl { cursor: u64, player: usize, control: ColecoControl },
    SetColecoKeypad { cursor: u64, player: usize, key: TasColecoKeypadKey },
    InsertNeutralFrames { cursor: u64, count: u64 },
    DeleteFrames { start: u64, count: u64 },
    StartRecordingAtEnd,
    CaptureRecordingFrame,
    StopRecording,
    ForkBranch { id: String, name: String },
    DeleteBranchSubtree { id: String },
    RenameActiveBranch { name: String },
}

/// Why an action was refused.
#[derive(Clone, Copy, Debug, PartialEq, Eq, Structural)]
pub enum TasEditorError {
    NoProject,
    ExportBusy,
    LiveAuthority,
    LinkedBoundary,
    RecordingActive,
    RecordingInactive,
    RecordingRowChanged,
    InvalidColumn,
    UndeclaredPlayer,
    UndeclaredControl,
    UndeclaredColeco,
    EndCursor,
    EmptyMovie,
    NoSelection,
    NothingToUndo,
    NothingToRedo,
    ExecutionNotAttached,
    SeekOutsideBranch,
    StaleSelection,
    StaleMarkedRanges,
    StaleProject,
    StaleBranch,
    InvalidSelection,
    NoMarkedRanges,
    NotLinked,
    StaleCursor,
    Edit(TasEditError),
    MarkedRanges(TasMarkedRangesError),
    Ranges(TasRangeError),
    Mask(TasMaskError),
    SpecialInput(TasSpecialInputError),
    Metadata(TasMetadataError),
    Pattern(TasPatternError),
    SpecialMask(TasSpecialMaskError),
    Autofire(TasAutofireError),
    Clipboard(TasClipboardError),
    Event(TasEventError),
}

impl TasEditorError {
    /// A sentence for the user.
    pub open spec fn message_text(&self) -> Seq<char> {
        match self {
            TasEditorError::NoProject => "open a TAS project first"@,
            TasEditorError::ExportBusy => "verified replay export is running; the project is temporarily locked"@,
            TasEditorError::LiveAuthority => "finish the live game decision before changing the TAS editor"@,
            TasEditorError::LinkedBoundary => "move the linked game to the selected TAS boundary before creating a branch"@,
            TasEditorError::RecordingActive => "stop frame recording first"@,
            TasEditorError::RecordingInactive => "frame recording is not active"@,
            TasEditorError::RecordingRowChanged => "the recording row changed; finish manual row entry and start again"@,
            TasEditorError::InvalidColumn => "invalid TAS digital input column"@,
            TasEditorError::UndeclaredPlayer => "the TAS project does not declare that player"@,
            TasEditorError::UndeclaredControl => "the TAS project does not declare that digital control"@,
            TasEditorError::UndeclaredColeco => "the TAS project does not declare that ColecoVision control"@,
            TasEditorError::EndCursor => "cannot edit input at the end cursor"@,
            TasEditorError::EmptyMovie => "cannot select input rows in an empty movie"@,
            TasEditorError::NoSelection => "select one or more TAS input frames first"@,
            TasEditorError::NothingToUndo => "nothing to undo"@,
            TasEditorError::NothingToRedo => "nothing to redo"@,
            TasEditorError::ExecutionNotAttached => "private TAS execution is not attached"@,
            TasEditorError::SeekOutsideBranch => "the seek target lies outside the active branch"@,
            TasEditorError::StaleSelection => "input selection changed after this operation was requested; retry it"@,
            TasEditorError::StaleMarkedRanges => "marked input ranges changed after this operation was requested; retry it"@,
            TasEditorError::StaleProject => "TAS project changed after this edit was drafted; retry it"@,
            TasEditorError::StaleBranch => "TAS branch selection changed after this edit was drafted; retry it"@,
            TasEditorError::InvalidSelection => "select a valid non-empty input range first"@,
            TasEditorError::NoMarkedRanges => "mark at least one input range before editing controls"@,
            TasEditorError::NotLinked => "the game is not linked to the TAS editor"@,
            TasEditorError::StaleCursor => "selected TAS cursor changed after this operation was requested; retry it"@,
            TasEditorError::Edit(e) => e.message_text(),
            TasEditorError::MarkedRanges(_) => "marked input range revision overflow"@,
            TasEditorError::Ranges(e) => e.message_text(),
            TasEditorError::Mask(e) => e.message_text(),
            TasEditorError::SpecialInput(e) => e.message_text(),
            TasEditorError::Metadata(e) => e.message_text(),
            TasEditorError::Pattern(e) => e.message_text(),
            TasEditorError::SpecialMask(e) => e.message_text(),
            TasEditorError::Autofire(e) => e.message_text(),
            TasEditorError::Clipboard(e) => e.message_text(),
            TasEditorError::Event(e) => e.message_text(),
        }
    }

    pub fn message(&self) -> (r: &'static str)
        ensures
            r@ == self.message_text(),
    {
        match self {
            TasEditorError::NoProject => "open a TAS project first",
            TasEditorError::ExportBusy => "verified replay export is running; the project is temporarily locked",
            TasEditorError::LiveAuthority => "finish the live game decision before changing the TAS editor",
            TasEditorError::LinkedBoundary => "move the linked game to the selected TAS boundary before creating a branch",
            TasEditorError::RecordingActive => "stop frame recording first",
            TasEditorError::RecordingInactive => "frame recording is not active",
            TasEditorError::RecordingRowChanged => "the recording row changed; finish manual row entry and start again",
            TasEditorError::InvalidColumn => "invalid TAS digital input column",
            TasEditorError::UndeclaredPlayer => "the TAS project does not declare that player",
            TasEditorError::UndeclaredControl => "the TAS project does not declare that digital control",
            TasEditorError::UndeclaredColeco => "the TAS project does not declare that ColecoVision control",
            TasEditorError::EndCursor => "cannot edit input at the end cursor",
            TasEditorError::EmptyMovie => "cannot select input rows in an empty movie",
            TasEditorError::NoSelection => "select one or more TAS input frames first",
            TasEditorError::NothingToUndo => "nothing to undo",
            TasEditorError::NothingToRedo => "nothing to redo",
            TasEditorError::ExecutionNotAttached => "private TAS execution is not attached",
            TasEditorError::SeekOutsideBranch => "the seek target lies outside the active branch",
            TasEditorError::StaleSelection => "input selection changed after this operation was requested; retry it",
            TasEditorError::StaleMarkedRanges => "marked input ranges changed after this operation was requested; retry it",
            TasEditorError::StaleProject => "TAS project changed after this edit was drafted; retry it",
            TasEditorError::StaleBranch => "TAS branch selection changed after this edit was drafted; retry it",
            TasEditorError::InvalidSelection => "select a valid non-empty input range first",
            TasEditorError::NoMarkedRanges => "mark at least one input range before editing controls",
            TasEditorError::NotLinked => "the game is not linked to the TAS editor",
            TasEditorError::StaleCursor => "selected TAS cursor changed after this operation was requested; retry it",
            TasEditorError::Edit(e) => e.message(),
            TasEditorError::MarkedRanges(_) => "marked input range revision overflow",
            TasEditorError::Ranges(e) => e.message(),
            TasEditorError::Mask(e) => e.message(),
            TasEditorError::SpecialInput(e) => e.message(),
            TasEditorError::Metadata(e) => e.message(),
            TasEditorError::Pattern(e) => e.message(),
            TasEditorError::SpecialMask(e) => e.message(),
            TasEditorError::Autofire(e) => e.message(),
            TasEditorError::Clipboard(e) => e.message(),
            TasEditorError::Event(e) => e.message(),
        }
    }
}

/// Every action except saving by hand and autosaving; the live session must
/// release the game before these run.
pub open spec fn spec_blocked_while_live(action: TasEditorAction) -> bool {
    !(action is SaveManual || action is Autosave || action is RequestLiveGoToSelection || action is CancelAutosaveRecovery
        || action is CancelFileRequest)
}

impl TasEditorAction {
    /// Whether the action waits while a live session holds the game.
    pub fn blocked_while_live_authority_is_active(&self) -> (r: bool)
        ensures
            r == spec_blocked_while_live(*self),
    {
        !matches!(self, TasEditorAction::SaveManual | TasEditorAction::Autosave | TasEditorAction::RequestLiveGoToSelection
            | TasEditorAction::CancelAutosaveRecovery | TasEditorAction::CancelFileRequest)
    }
}

/// The whole editor state.
#[derive(Debug)]
pub struct TasEditorWindowState {
    pub open: bool,
    pub presentation: TasEditorPresentation,
    pub session: Option<TasEditorSession>,
    pub live_status: TasEditorLiveStatus,
    pub live_recording_mode: TasLiveRecordingMode,
    pub pending_host_request: Option<TasEditorHostRequest>,
    pub pending_project_replacement: Option<(String, bool)>,
    pub recording: Option<TasEditorRecordingState>,
    pub timeline_selection: TasTimelineSelection,
    pub timeline_follow_selection: bool,
    pub execution_availability: TasEditorExecutionAvailability,
    /// The boundary the offline preview shows, if any.
    pub execution_preview: Option<u64>,
    /// A seek the host should run on the private execution engine.
    pub pending_seek: Option<u64>,
    pub message: Option<(bool, String)>,
    pub active_branch_name: String,
    pub verified_export_busy: bool,
    pub linked_session_active: bool,
    pub close_keep_after_live_command: bool,
    pub marked_ranges: TasMarkedInputRangesState,
    pub input_clipboard: TasInputClipboardState,
    pub metadata_editor: TasMetadataEditorState,
    /// When the periodic autosave was armed, in milliseconds of the host clock.
    pub autosave_armed_at: Option<u64>,
    /// Whether the user is being asked to confirm recovering the autosave.
    pub pending_autosave_recovery: bool,
    /// A file operation waiting for the user to settle unsaved changes.
    pub pending_file_request: Option<TasEditorFileRequest>,
}

impl TasEditorWindowState {
    /// The editor's invariant: a valid session, and a recording draft that
    /// the session can return from.
    pub open spec fn wf(&self) -> bool {
        &&& match self.session {
            Some(s) => s@.wf(),
            None => true,
        }
        &&& match self.recording {
            Some(r) => self.session is Some && checkpoint_ok(r.checkpoint@, self.session.unwrap()@.next_generation),
            None => true,
        }
    }

    /// A closed editor with no project.
    pub fn new() -> (r: Self)
        ensures
            r.wf(),
            !r.open,
            r.presentation == TasEditorPresentation::Embedded,
            r.session is None,
            r.recording is None,
            r.pending_host_request is None,
            r.pending_project_replacement is None,
            !r.verified_export_busy,
            !r.pending_autosave_recovery,
            r.pending_file_request is None,
    {
        TasEditorWindowState {
            open: false,
            presentation: TasEditorPresentation::Embedded,
            session: None,
            live_status: TasEditorLiveStatus::initial(),
            live_recording_mode: TasLiveRecordingMode::ReplaceExistingInput,
            pending_host_request: None,
            pending_project_replacement: None,
            recording: None,
            timeline_selection: TasTimelineSelection::new(),
            timeline_follow_selection: false,
            execution_availability: TasEditorExecutionAvailability::Unavailable(string_of("no game is loaded")),
            execution_preview: None,
            pending_seek: None,
            message: None,
            active_branch_name: String::new(),
            verified_export_busy: false,
            linked_session_active: false,
            close_keep_after_live_command: false,
            marked_ranges: TasMarkedInputRangesState::new(),
            input_clipboard: TasInputClipboardState::new(),
            metadata_editor: TasMetadataEditorState::new(),
            autosave_armed_at: None,
            pending_autosave_recovery: false,
            pending_file_request: None,
        }
    }

    pub fn presentation(&self) -> (r: TasEditorPresentation)
        ensures
            r == self.presentation,
    {
        self.presentation
    }

    pub fn open_embedded(&mut self)
        ensures
            *final(self) == (TasEditorWindowState { open: true, presentation: TasEditorPresentation::Embedded, ..*old(self) }),
    {
        self.open = true;
        self.presentation = TasEditorPresentation::Embedded;
    }

    pub fn open_separate_window(&mut self)
        ensures
            *final(self) == (TasEditorWindowState { open: true, presentation: TasEditorPresentation::SeparateWindow, ..*old(self) }),
    {
        self.open = true;
        self.presentation = TasEditorPresentation::SeparateWindow;
    }

    pub fn close(&mut self)
        ensures
            *final(self) == (TasEditorWindowState { open: false, ..*old(self) }),
    {
        self.open = false;
    }

    pub fn set_verified_export_busy(&mut self, busy: bool)
        ensures
            *final(self) == (TasEditorWindowState { verified_export_busy: busy, ..*old(self) }),
    {
        self.verified_export_busy = busy;
    }

    /// Asks the user to confirm opening the project at `path` in place of the current one.
    pub fn request_project_replacement_with_game_gear_no_save(&mut self, path: String, game_gear_no_save: bool)
        ensures
            final(self).pending_project_replacement == Some((path, game_gear_no_save)),
            final(self).pending_host_request == old(self).pending_host_request,
            final(self).session == old(self).session,
    {
        self.pending_project_replacement = Some((path, game_gear_no_save));
    }

    /// The session, if a project is open.
    pub fn active_session(&self) -> (r: Option<&TasEditorSession>)
        ensures
            r == match &self.session {
                Some(s) => Some(s),
                None => None::<&TasEditorSession>,
            },
    {
        self.session.as_ref()
    }

    /// Opens `project` (read from `manual_path`) as the new session; the
    /// previous session, draft, selection and preview are dropped.
    pub fn open_project(&mut self, project: TasProject, manual_path: &str) -> (r: Result<(), TasEditorError>)
        requires
            old(self).wf(),
            project@.wf(),
        ensures
            final(self).wf(),
            match r {
                Ok(()) => final(self).session is Some && final(self).session.unwrap()@.current.project == project@
                    && final(self).session.unwrap()@.cursor() == 0 && final(self).recording is None
                    && !final(self).session.unwrap()@.is_dirty(),
                Err(e) => *final(self) == *old(self) && e is Edit,
            },
    {
        let session = match TasEditorSession::open(project, manual_path) {
            Ok(s) => s,
            Err(e) => return Err(TasEditorError::Edit(e)),
        };
        self.session = Some(session);
        self.recording = None;
        self.timeline_selection = TasTimelineSelection::new();
        self.timeline_follow_selection = true;
        self.input_clipboard = TasInputClipboardState {
            generation: if self.input_clipboard.generation < u64::MAX { self.input_clipboard.generation + 1 } else { self.input_clipboard.generation },
            entry: None,
        };
        self.execution_preview = None;
        self.pending_seek = None;
        self.metadata_editor = TasMetadataEditorState::new();
        let _ = self.marked_ranges.reset();
        self.reset_active_branch_name();
        Ok(())
    }

    /// Sets the branch-name field to the selected branch's name.
    pub fn reset_active_branch_name(&mut self)
        requires
            old(self).wf(),
        ensures
            final(self).wf(),
            *final(self) == (TasEditorWindowState { active_branch_name: final(self).active_branch_name, ..*old(self) }),
            match old(self).session {
                Some(s) => final(self).active_branch_name@ == s@.branch().name,
                None => final(self).active_branch_name@.len() == 0,
            },
    {
        let name = match &self.session {
            Some(s) => string_of(s.selected_branch().name()),
            None => String::new(),
        };
        self.active_branch_name = name;
    }

    /// Whether `action` creates a branch exactly at the linked game's boundary.
    pub fn allows_linked_boundary_branch(&self, action: &TasEditorAction) -> (r: bool)
        ensures
            r == (action is ForkBranch && match self.live_status {
                TasEditorLiveStatus::Linked { cursor, .. } => self.session is Some && self.session.unwrap()@.cursor() == cursor,
                _ => false,
            }),
    {
        if !matches!(action, TasEditorAction::ForkBranch { .. }) {
            return false;
        }
        match &self.live_status {
            TasEditorLiveStatus::Linked { cursor, .. } => match &self.session {
                Some(s) => s.cursor() == *cursor,
                None => false,
            },
            _ => false,
        }
    }

    /// Asks the linked game to rebuild the boundaries `start..end` after an edit.
    pub fn queue_linked_edit_reconstruction(&mut self, start: u64, end: u64)
        ensures
            *final(self) == if end > start && old(self).live_status is Linked {
                TasEditorWindowState {
                    pending_host_request: Some(TasEditorHostRequest::Live(TasEditorLiveAction::ReconstructAfterEdit { start, end })),
                    ..*old(self)
                }
            } else {
                *old(self)
            },
    {
        if end > start && self.live_status.is_linked() {
            self.pending_host_request = Some(TasEditorHostRequest::Live(TasEditorLiveAction::ReconstructAfterEdit { start, end }));
        }
    }
}

/// A recording draft stays restorable while the session's generation counter grows.
pub proof fn lemma_recording_stays_ok(recording: Option<TasEditorRecordingState>, before: SessionModel, after: SessionModel)
    requires
        after.next_generation >= before.next_generation,
        match recording {
            Some(r) => checkpoint_ok(r.checkpoint@, before.next_generation),
            None => true,
        },
    ensures
        match recording {
            Some(r) => checkpoint_ok(r.checkpoint@, after.next_generation),
            None => true,
        },
{
    match recording {
        Some(r) => lemma_checkpoint_ok_grows(r.checkpoint@, before.next_generation, after.next_generation),
        None => {},
    }
}

} // verus!
