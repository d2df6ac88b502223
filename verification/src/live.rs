//! The live link between the editor and the loaded game: its status, the
//! requests the editor hands to its host, and the transport controls.
use vstd::prelude::*;

use crate::limits::MAX_PROJECT_FRAMES;
use crate::text::{clone_string, decimal, push_decimal, push_str, spec_trim, trim, is_blank, is_space};

verus! {

/// Where the live session stands.
#[derive(Debug)]
pub enum TasEditorLiveStatus {
    Unavailable(String),
    ReloadRequired(String),
    Ready { recording_available: bool },
    Acquiring,
    Staging { completed: u64, total: u64 },
    Linked { cursor: u64, recording_available: bool },
    Playing { cursor: u64, pause_pending: bool },
    AdvancingFrame,
    Recording,
    Returning,
    Keeping,
    Terminal(String),
}

/// How live recording treats input that already follows the recording position.
#[derive(Clone, Copy, Debug, PartialEq, Eq, Structural)]
pub enum TasLiveRecordingMode {
    ReplaceExistingInput,
    InsertNewFrames,
}

/// A request to the host that owns the loaded game.
#[derive(Clone, Copy, Debug, PartialEq, Eq, Structural)]
pub enum TasEditorLiveAction {
    ReloadLoadedGame,
    StageSelectedInput,
    RecordFromSelectedInput,
    GoToSelection,
    ReconstructAfterEdit { start: u64, end: u64 },
    RecordCurrentInputAndAdvance,
    StartRealtimeRecording,
    StopRealtimeRecording,
    StartPlayback,
    PausePlayback,
    KeepResultAndReturnToGame,
    ReturnToGameUnchanged,
}

/// A file operation the host must confirm or perform.
#[derive(Clone, Debug, PartialEq, Eq)]
pub enum TasEditorFileRequest {
    /// Open the project at this path once unsaved changes are settled.
    OpenProject(String),
    /// Close the editor once unsaved changes are settled.
    CloseEditor,
}

/// Something the editor asks its host to do.
#[derive(Clone, Debug, PartialEq, Eq)]
pub enum TasEditorHostRequest {
    File(TasEditorFileRequest),
    ReplaceProject { path: String, game_gear_no_save: bool },
    Live(TasEditorLiveAction),
}

/// One primary button of the transport strip.
#[derive(Clone, Copy, Debug, PartialEq, Eq, Structural)]
pub enum TasPrimaryTransportAction {
    Connect,
    Play,
    Pause,
    Record,
    GoToSelection,
    FrameAdvance,
    Stop,
}

pub open spec fn spec_locks_editor(status: TasEditorLiveStatus) -> bool {
    !(status is Unavailable || status is ReloadRequired || status is Ready || status is Linked)
}

pub open spec fn spec_holds_authority(status: TasEditorLiveStatus) -> bool {
    !(status is Unavailable || status is ReloadRequired || status is Ready)
}

pub open spec fn spec_requires_return_on_close(status: TasEditorLiveStatus) -> bool {
    status is Acquiring || status is Staging || status is Playing || status is AdvancingFrame
        || status is Recording
}

pub open spec fn spec_execution_boundary(status: TasEditorLiveStatus) -> Option<u64> {
    match status {
        TasEditorLiveStatus::Linked { cursor, .. } => Some(cursor),
        TasEditorLiveStatus::Playing { cursor, .. } => Some(cursor),
        _ => None,
    }
}

pub open spec fn spec_primary_label(status: TasEditorLiveStatus) -> Seq<char> {
    match status {
        TasEditorLiveStatus::Unavailable(_) => "Offline"@,
        TasEditorLiveStatus::ReloadRequired(_) => "Reload required"@,
        TasEditorLiveStatus::Ready { .. } => "Ready to connect"@,
        TasEditorLiveStatus::Acquiring => "Connecting…"@,
        TasEditorLiveStatus::Staging { completed, total } => "Connecting… "@ + decimal(
            completed as nat,
        ) + "/"@ + decimal(total as nat) + " frames"@,
        TasEditorLiveStatus::Linked { cursor, .. } => "Connected · paused before input frame "@
            + decimal(cursor as nat),
        TasEditorLiveStatus::Playing { cursor, pause_pending } => if pause_pending {
            "Pausing at the next boundary after B("@ + decimal(cursor as nat) + ")…"@
        } else {
            "▶ Playing from B("@ + decimal(cursor as nat) + ")"@
        },
        TasEditorLiveStatus::AdvancingFrame => "Recording one frame…"@,
        TasEditorLiveStatus::Recording => "Recording"@,
        TasEditorLiveStatus::Returning => "Restoring pre-TAS game…"@,
        TasEditorLiveStatus::Keeping => "Disconnecting…"@,
        TasEditorLiveStatus::Terminal(_) => "Live session needs attention"@,
    }
}

impl TasEditorLiveStatus {
    /// The status before any live session is offered.
    pub fn initial() -> (r: Self)
        ensures
            r is Unavailable,
            r->Unavailable_0@ == "Live playback is not ready"@,
    {
        TasEditorLiveStatus::Unavailable("Live playback is not ready".to_owned())
    }

    /// A copy of the status.
    pub fn clone_status(&self) -> (r: Self)
        ensures
            r == *self || (match (r, *self) {
                (TasEditorLiveStatus::Unavailable(a), TasEditorLiveStatus::Unavailable(b)) => a@
                    == b@,
                (TasEditorLiveStatus::ReloadRequired(a), TasEditorLiveStatus::ReloadRequired(
                    b,
                )) => a@ == b@,
                (TasEditorLiveStatus::Terminal(a), TasEditorLiveStatus::Terminal(b)) => a@
                    == b@,
                _ => false,
            }),
            spec_locks_editor(r) == spec_locks_editor(*self),
            spec_holds_authority(r) == spec_holds_authority(*self),
            spec_execution_boundary(r) == spec_execution_boundary(*self),
    {
        match self {
            TasEditorLiveStatus::Unavailable(s) => TasEditorLiveStatus::Unavailable(
                clone_string(s),
            ),
            TasEditorLiveStatus::ReloadRequired(s) => TasEditorLiveStatus::ReloadRequired(
                clone_string(s),
            ),
            TasEditorLiveStatus::Ready { recording_available } => TasEditorLiveStatus::Ready {
                recording_available: *recording_available,
            },
            TasEditorLiveStatus::Acquiring => TasEditorLiveStatus::Acquiring,
            TasEditorLiveStatus::Staging { completed, total } => TasEditorLiveStatus::Staging {
                completed: *completed,
                total: *total,
            },
            TasEditorLiveStatus::Linked { cursor, recording_available } =>
                TasEditorLiveStatus::Linked {
                cursor: *cursor,
                recording_available: *recording_available,
            },
            TasEditorLiveStatus::Playing { cursor, pause_pending } =>
                TasEditorLiveStatus::Playing { cursor: *cursor, pause_pending: *pause_pending },
            TasEditorLiveStatus::AdvancingFrame => TasEditorLiveStatus::AdvancingFrame,
            TasEditorLiveStatus::Recording => TasEditorLiveStatus::Recording,
            TasEditorLiveStatus::Returning => TasEditorLiveStatus::Returning,
            TasEditorLiveStatus::Keeping => TasEditorLiveStatus::Keeping,
            TasEditorLiveStatus::Terminal(s) => TasEditorLiveStatus::Terminal(clone_string(s)),
        }
    }

    /// The headline the transport strip shows.
    pub fn primary_label(&self) -> (r: String)
        ensures
            r@ == spec_primary_label(*self),
    {
        let mut s = String::new();
        match self {
            TasEditorLiveStatus::Unavailable(_) => push_str(&mut s, "Offline"),
            TasEditorLiveStatus::ReloadRequired(_) => push_str(&mut s, "Reload required"),
            TasEditorLiveStatus::Ready { .. } => push_str(&mut s, "Ready to connect"),
            TasEditorLiveStatus::Acquiring => push_str(&mut s, "Connecting…"),
            TasEditorLiveStatus::Staging { completed, total } => {
                push_str(&mut s, "Connecting… ");
                push_decimal(&mut s, *completed);
                push_str(&mut s, "/");
                push_decimal(&mut s, *total);
                push_str(&mut s, " frames");
            },
            TasEditorLiveStatus::Linked { cursor, .. } => {
                push_str(&mut s, "Connected · paused before input frame ");
                push_decimal(&mut s, *cursor);
            },
            TasEditorLiveStatus::Playing { cursor, pause_pending } => {
                if *pause_pending {
                    push_str(&mut s, "Pausing at the next boundary after B(");
                    push_decimal(&mut s, *cursor);
                    push_str(&mut s, ")…");
                } else {
                    push_str(&mut s, "▶ Playing from B(");
                    push_decimal(&mut s, *cursor);
                    push_str(&mut s, ")");
                }
            },
            TasEditorLiveStatus::AdvancingFrame => push_str(&mut s, "Recording one frame…"),
            TasEditorLiveStatus::Recording => push_str(&mut s, "Recording"),
            TasEditorLiveStatus::Returning => push_str(&mut s, "Restoring pre-TAS game…"),
            TasEditorLiveStatus::Keeping => push_str(&mut s, "Disconnecting…"),
            TasEditorLiveStatus::Terminal(_) => push_str(&mut s, "Live session needs attention"),
        }
        proof {
            assert(s@ =~= spec_primary_label(*self));
        }
        s
    }

    /// Whether the live session forbids editing the movie.
    pub fn locks_editor(&self) -> (r: bool)
        ensures
            r == spec_locks_editor(*self),
    {
        !matches!(
            self,
            TasEditorLiveStatus::Unavailable(_) | TasEditorLiveStatus::ReloadRequired(_)
                | TasEditorLiveStatus::Ready { .. } | TasEditorLiveStatus::Linked { .. }
        )
    }

    /// Whether the live session currently owns the loaded game.
    pub fn holds_authority(&self) -> (r: bool)
        ensures
            r == spec_holds_authority(*self),
    {
        !matches!(
            self,
            TasEditorLiveStatus::Unavailable(_) | TasEditorLiveStatus::ReloadRequired(_)
                | TasEditorLiveStatus::Ready { .. }
        )
    }

    /// Whether closing the editor must first hand the game back.
    pub fn requires_return_on_close(&self) -> (r: bool)
        ensures
            r == spec_requires_return_on_close(*self),
    {
        matches!(
            self,
            TasEditorLiveStatus::Acquiring | TasEditorLiveStatus::Staging { .. }
                | TasEditorLiveStatus::Playing { .. } | TasEditorLiveStatus::AdvancingFrame
                | TasEditorLiveStatus::Recording
        )
    }

    /// Whether the timeline cursor follows the game.
    pub fn follows_cursor(&self) -> (r: bool)
        ensures
            r == (*self is Playing || *self is AdvancingFrame || *self is Recording),
    {
        matches!(
            self,
            TasEditorLiveStatus::Playing { .. } | TasEditorLiveStatus::AdvancingFrame
                | TasEditorLiveStatus::Recording
        )
    }

    /// Whether the game is linked and paused at a boundary.
    pub fn is_linked(&self) -> (r: bool)
        ensures
            r == (*self is Linked),
    {
        matches!(self, TasEditorLiveStatus::Linked { .. })
    }

    /// The boundary the game stands at, when it is linked or playing.
    pub fn execution_boundary(&self) -> (r: Option<u64>)
        ensures
            r == spec_execution_boundary(*self),
    {
        match self {
            TasEditorLiveStatus::Linked { cursor, .. } => Some(*cursor),
            TasEditorLiveStatus::Playing { cursor, .. } => Some(*cursor),
            _ => None,
        }
    }
}

/// A status that locks the editor also holds authority over the game.
pub proof fn law_locking_implies_authority(status: TasEditorLiveStatus)
    ensures
        spec_locks_editor(status) ==> spec_holds_authority(status),
        spec_requires_return_on_close(status) ==> spec_locks_editor(status),
        spec_execution_boundary(status) is Some ==> spec_holds_authority(status),
{
}

/// The branch name to use: the trimmed name, or the trimmed id when the
/// name is blank.
pub open spec fn spec_branch_name_or_id(id: Seq<char>, name: Seq<char>) -> Seq<char> {
    if spec_trim(name).len() == 0 {
        spec_trim(id)
    } else {
        spec_trim(name)
    }
}

pub fn branch_name_or_id(id: &str, name: &str) -> (r: String)
    ensures
        r@ == spec_branch_name_or_id(id@, name@),
{
    let name = trim(name);
    if name.unicode_len() == 0 {
        trim(id)
    } else {
        name
    }
}

/// `cursor` moved by `delta` frames, clamped to the movie.
pub open spec fn spec_review_jump_target(cursor: u64, delta: i64, frame_count: u64) -> u64 {
    let moved = cursor + delta;
    let saturated = if moved < 0 {
        0
    } else if moved > u64::MAX {
        u64::MAX as int
    } else {
        moved
    };
    if saturated < frame_count {
        saturated as u64
    } else {
        frame_count
    }
}

pub fn review_jump_target(cursor: u64, delta: i64, frame_count: u64) -> (r: u64)
    ensures
        r == spec_review_jump_target(cursor, delta, frame_count),
        r <= frame_count,
{
    let moved: i128 = cursor as i128 + delta as i128;
    let saturated: u64 = if moved < 0 {
        0
    } else if moved > u64::MAX as i128 {
        u64::MAX
    } else {
        moved as u64
    };
    if saturated < frame_count {
        saturated
    } else {
        frame_count
    }
}

/// Whether recording from `target` would meet existing input after it.
pub fn recording_target_has_future(target: Option<u64>, frame_count: u64) -> (r: bool)
    ensures
        r == (target is Some && target->0 < frame_count),
{
    match target {
        Some(t) => t < frame_count,
        None => false,
    }
}

pub open spec fn spec_selected_input_target(cursor: u64, frame_count: u64) -> Option<u64> {
    if frame_count > MAX_PROJECT_FRAMES || cursor > frame_count {
        None
    } else {
        Some(cursor)
    }
}

/// The boundary a live connection would stage to: the cursor, when it lies
/// within a movie of allowed length.
pub fn selected_input_target(cursor: u64, frame_count: u64) -> (r: Option<u64>)
    ensures
        r == spec_selected_input_target(cursor, frame_count),
{
    if frame_count > MAX_PROJECT_FRAMES || cursor > frame_count {
        None
    } else {
        Some(cursor)
    }
}

/// Whether the selection can be staged into the loaded game.
pub fn can_stage_selected_input(cursor: u64, frame_count: u64) -> (r: bool)
    ensures
        r == spec_selected_input_target(cursor, frame_count) is Some,
{
    selected_input_target(cursor, frame_count).is_some()
}

pub open spec fn spec_can_record_current_input(cursor: u64, frame_count: u64) -> bool {
    cursor <= frame_count && frame_count < MAX_PROJECT_FRAMES
}

/// Whether one more frame can be recorded at `cursor`.
pub fn can_record_current_input(cursor: u64, frame_count: u64) -> (r: bool)
    ensures
        r == spec_can_record_current_input(cursor, frame_count),
{
    cursor <= frame_count && frame_count < MAX_PROJECT_FRAMES
}

pub open spec fn spec_primary_transport_actions(
    status: TasEditorLiveStatus,
    cursor: u64,
    frame_count: u64,
) -> Seq<TasPrimaryTransportAction> {
    match status {
        TasEditorLiveStatus::Ready { recording_available } => {
            if spec_selected_input_target(cursor, frame_count) is Some {
                if recording_available {
                    seq![TasPrimaryTransportAction::Connect, TasPrimaryTransportAction::Record]
                } else {
                    seq![TasPrimaryTransportAction::Connect]
                }
            } else {
                Seq::empty()
            }
        },
        TasEditorLiveStatus::Linked { cursor: linked, recording_available } => {
            let play = if linked < frame_count {
                seq![TasPrimaryTransportAction::Play]
            } else {
                Seq::empty()
            };
            let go = if linked != cursor {
                seq![TasPrimaryTransportAction::GoToSelection]
            } else {
                Seq::empty()
            };
            let record = if recording_available && linked == cursor
                && spec_can_record_current_input(cursor, frame_count) {
                seq![TasPrimaryTransportAction::Record, TasPrimaryTransportAction::FrameAdvance]
            } else {
                Seq::empty()
            };
            play + go + record
        },
        TasEditorLiveStatus::Playing { .. } => seq![TasPrimaryTransportAction::Pause],
        TasEditorLiveStatus::Recording => seq![TasPrimaryTransportAction::Stop],
        _ => Seq::empty(),
    }
}

/// The primary transport buttons offered for a live status, in order.
pub fn primary_transport_actions(
    status: &TasEditorLiveStatus,
    cursor: u64,
    frame_count: u64,
) -> (r: Vec<TasPrimaryTransportAction>)
    ensures
        r@ == spec_primary_transport_actions(*status, cursor, frame_count),
{
    let can_stage = can_stage_selected_input(cursor, frame_count);
    let can_record = can_record_current_input(cursor, frame_count);
    let mut actions: Vec<TasPrimaryTransportAction> = Vec::new();
    match status {
        TasEditorLiveStatus::Ready { recording_available } => {
            if can_stage {
                actions.push(TasPrimaryTransportAction::Connect);
                if *recording_available {
                    actions.push(TasPrimaryTransportAction::Record);
                }
            }
        },
        TasEditorLiveStatus::Linked { cursor: linked, recording_available } => {
            if *linked < frame_count {
                actions.push(TasPrimaryTransportAction::Play);
            }
            if *linked != cursor {
                actions.push(TasPrimaryTransportAction::GoToSelection);
            }
            if *recording_available && *linked == cursor && can_record {
                actions.push(TasPrimaryTransportAction::Record);
                actions.push(TasPrimaryTransportAction::FrameAdvance);
            }
        },
        TasEditorLiveStatus::Playing { .. } => actions.push(TasPrimaryTransportAction::Pause),
        TasEditorLiveStatus::Recording => actions.push(TasPrimaryTransportAction::Stop),
        _ => {},
    }
    proof {
        assert(actions@ =~= spec_primary_transport_actions(*status, cursor, frame_count));
    }
    actions
}

/// The request a primary transport button sends to the host for `status`;
/// recording is offered only to a ready or linked game.
pub open spec fn spec_transport_request(status: TasEditorLiveStatus, action: TasPrimaryTransportAction) -> Option<TasEditorLiveAction> {
    match action {
        TasPrimaryTransportAction::Connect => Some(TasEditorLiveAction::StageSelectedInput),
        TasPrimaryTransportAction::Record => match status {
            TasEditorLiveStatus::Ready { .. } => Some(TasEditorLiveAction::RecordFromSelectedInput),
            TasEditorLiveStatus::Linked { .. } => Some(TasEditorLiveAction::StartRealtimeRecording),
            _ => None,
        },
        TasPrimaryTransportAction::Play => Some(TasEditorLiveAction::StartPlayback),
        TasPrimaryTransportAction::Pause => Some(TasEditorLiveAction::PausePlayback),
        TasPrimaryTransportAction::GoToSelection => Some(TasEditorLiveAction::GoToSelection),
        TasPrimaryTransportAction::FrameAdvance => Some(TasEditorLiveAction::RecordCurrentInputAndAdvance),
        TasPrimaryTransportAction::Stop => Some(TasEditorLiveAction::StopRealtimeRecording),
    }
}

/// The request a primary transport button sends to the host for `status`.
pub fn transport_request(status: &TasEditorLiveStatus, action: TasPrimaryTransportAction) -> (r: Option<TasEditorLiveAction>)
    ensures
        r == spec_transport_request(*status, action),
{
    match action {
        TasPrimaryTransportAction::Connect => Some(TasEditorLiveAction::StageSelectedInput),
        TasPrimaryTransportAction::Record => match status {
            TasEditorLiveStatus::Ready { .. } => Some(TasEditorLiveAction::RecordFromSelectedInput),
            TasEditorLiveStatus::Linked { .. } => Some(TasEditorLiveAction::StartRealtimeRecording),
            _ => None,
        },
        TasPrimaryTransportAction::Play => Some(TasEditorLiveAction::StartPlayback),
        TasPrimaryTransportAction::Pause => Some(TasEditorLiveAction::PausePlayback),
        TasPrimaryTransportAction::GoToSelection => Some(TasEditorLiveAction::GoToSelection),
        TasPrimaryTransportAction::FrameAdvance => Some(TasEditorLiveAction::RecordCurrentInputAndAdvance),
        TasPrimaryTransportAction::Stop => Some(TasEditorLiveAction::StopRealtimeRecording),
    }
}

} // verus!
