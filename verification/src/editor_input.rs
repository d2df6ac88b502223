//! Editor handlers that change input cell by cell, move the selection, and
//! enter new rows by frame recording.
use vstd::prelude::*;

use crate::coleco_input::{ColecoControl, control_pressed, is_coleco_project, set_control, spec_control_pressed, spec_is_coleco_system, spec_set_control};
use crate::editor::{TasEditorError, TasEditorRecordingState, TasEditorWindowState, lemma_recording_stays_ok};
use crate::input::{TasColecoKeypadKey, TasControllerInput, TasInputFrame};
use crate::input_columns::{
    DigitalField, applicable_player_count, digital_columns, has_column, is_single_bit, single_bit,
    spec_applicable_player_count, spec_digital_columns,
};
use crate::live::TasEditorLiveStatus;
use crate::project::input_at_spec;
use crate::selection::{TasTimelineNavigation, spec_active_cursor};
use crate::session::{SessionModel, TasEditError, checkpoint_ok, fill_range, frame_commit_result};
use crate::text::{decimal, push_decimal, push_str, string_of};

verus! {

/// A request to move the timeline selection.
#[derive(Clone, Copy, Debug, PartialEq, Eq, Structural)]
pub enum TasTimelineSelectionChange {
    /// Put the cursor on a boundary; the row after it becomes the selection.
    Boundary(u64),
    Frame { frame: u64, extend_selection: bool },
    Range { anchor: u64, active: u64 },
    Navigate { navigation: TasTimelineNavigation, extend_selection: bool },
}

/// `v` with the `mask` bits set (`on`) or cleared.
pub open spec fn set_bits(v: u8, mask: u8, on: bool) -> u8 {
    if on { v | mask } else { v & !mask }
}

/// The controller with one digital control pressed or released.
pub open spec fn with_digital(c: TasControllerInput, field: DigitalField, mask: u8, on: bool) -> TasControllerInput {
    match field {
        DigitalField::Buttons => TasControllerInput { buttons: set_bits(c.buttons, mask, on), ..c },
        DigitalField::Dpad => TasControllerInput { dpad: set_bits(c.dpad, mask, on), ..c },
    }
}

pub open spec fn digital_pressed(c: TasControllerInput, field: DigitalField, mask: u8) -> bool {
    match field {
        DigitalField::Buttons => c.buttons & mask != 0,
        DigitalField::Dpad => c.dpad & mask != 0,
    }
}

/// `new` is `old` with only player `p`'s controller replaced by `c`.
pub open spec fn frame_with_player(old: TasInputFrame, new: TasInputFrame, p: int, c: TasControllerInput) -> bool {
    &&& new.players@ == old.players@.update(p, c)
    &&& new.coleco == old.coleco
    &&& new.zapper == old.zapper
    &&& new.tilt_x_bits == old.tilt_x_bits
    &&& new.tilt_y_bits == old.tilt_y_bits
    &&& new.camera == old.camera
}

/// `new` is `old` with only ColecoVision controller `p` replaced by `c`.
pub open spec fn frame_with_coleco(old: TasInputFrame, new: TasInputFrame, p: int, c: crate::input::TasColecoControllerInput) -> bool {
    &&& new.coleco@ == old.coleco@.update(p, c)
    &&& new.players == old.players
    &&& new.zapper == old.zapper
    &&& new.tilt_x_bits == old.tilt_x_bits
    &&& new.tilt_y_bits == old.tilt_y_bits
    &&& new.camera == old.camera
}

/// The session after a single-frame input edit: `frames` as the committed
/// result, or the unchanged session when the frame already held the input.
pub open spec fn single_frame_edit(old: SessionModel, new: SessionModel, cursor: u64, f: TasInputFrame) -> bool {
    exists|r: Result<crate::session::TasEditOutcome, crate::session::TasEditError>|
        #[trigger] frame_commit_result(old, new, old.current.selected, fill_range(old.frames(), cursor as int, 1, f), r) && r is Ok
}

/// The session after pressing, releasing or toggling (`None`) one control at
/// row `cursor`: unchanged when the control already stands so, else the row
/// holds the frame with only that control changed.
pub open spec fn digital_edit_result(
    s: SessionModel,
    n: SessionModel,
    cursor: u64,
    player: usize,
    field: DigitalField,
    mask: u8,
    pressed: Option<bool>,
) -> bool {
    let f = s.frames()[cursor as int];
    let c = f.players[player as int];
    let on = match pressed {
        Some(p) => p,
        None => !digital_pressed(c, field, mask),
    };
    if on == digital_pressed(c, field, mask) {
        n == s
    } else {
        &&& n.frames().len() == s.frames().len()
        &&& forall|k: int| 0 <= k < s.frames().len() && k != cursor ==> #[trigger] n.frames()[k] == s.frames()[k]
        &&& frame_with_player(f, n.frames()[cursor as int], player as int, with_digital(c, field, mask, on))
        &&& s.committed(n, crate::session::SnapshotModel {
            project: crate::session::with_branch_frames(s.current.project, s.current.selected, n.frames(), s.next_generation),
            ..s.current
        })
    }
}

/// Why an edit of one digital control is refused before the row is
/// written, if it is.
pub open spec fn digital_refusal(o: TasEditorWindowState, cursor: u64, player: usize, field: DigitalField, mask: u8) -> Option<TasEditorError> {
    if player >= 5 || !is_single_bit(mask) {
        Some(TasEditorError::InvalidColumn)
    } else {
        match o.session {
            None => Some(TasEditorError::NoProject),
            Some(s) => {
                let identity = s@.current.project.identity;
                let columns = spec_digital_columns(identity.system);
                if player >= spec_applicable_player_count(identity.devices) {
                    Some(TasEditorError::UndeclaredPlayer)
                } else if !(exists|k: int| 0 <= k < columns.len() && (#[trigger] columns[k]).field == field && columns[k].mask == mask) {
                    Some(TasEditorError::UndeclaredControl)
                } else if cursor >= s@.frames().len() {
                    Some(TasEditorError::EndCursor)
                } else {
                    None
                }
            },
        }
    }
}

/// Whether an edit of one digital control changes the row.
pub open spec fn digital_edit_changes(s: SessionModel, cursor: u64, player: usize, field: DigitalField, mask: u8, pressed: Option<bool>) -> bool {
    let c = s.frames()[cursor as int].players[player as int];
    match pressed {
        Some(p) => p != digital_pressed(c, field, mask),
        None => true,
    }
}

/// The answers an edit of one digital control owes: its refusals, the
/// exhausted history counter when the row would change, otherwise success;
/// a change of a linked game's movie asks the game to rebuild that row.
pub open spec fn digital_edit_answer(o: TasEditorWindowState, n: TasEditorWindowState, cursor: u64, player: usize, field: DigitalField, mask: u8, pressed: Option<bool>, r: Result<(), TasEditorError>) -> bool {
    match digital_refusal(o, cursor, player, field, mask) {
        Some(e) => r == Err::<(), TasEditorError>(e) && n == o,
        None => {
            let s = o.session.unwrap()@;
            if digital_edit_changes(s, cursor, player, field, mask, pressed) {
                if s.next_generation == u64::MAX {
                    r == Err::<(), TasEditorError>(TasEditorError::Edit(TasEditError::GenerationExhausted))
                } else {
                    &&& r is Ok
                    &&& n.execution_preview is None
                    &&& (o.live_status is Linked ==> n.pending_host_request == Some(
                        crate::live::TasEditorHostRequest::Live(crate::live::TasEditorLiveAction::ReconstructAfterEdit {
                            start: cursor, end: (cursor + 1) as u64 })))
                    &&& (!(o.live_status is Linked) ==> n.pending_host_request == o.pending_host_request)
                }
            } else {
                r is Ok && n == o
            }
        },
    }
}

/// What setting or toggling one digital control did.
pub open spec fn digital_edit_outcome(o: TasEditorWindowState, n: TasEditorWindowState, cursor: u64, player: usize, field: DigitalField, mask: u8, pressed: Option<bool>, r: Result<(), TasEditorError>) -> bool {
    &&& (n.recording == o.recording)
    &&& ((player >= 5 || !is_single_bit(mask)) ==> r == Err::<(), TasEditorError>(TasEditorError::InvalidColumn))
    &&& (r is Err ==> (o.session is Some ==> n.session is Some
                    && n.session.unwrap()@ == o.session.unwrap()@))
    &&& (r is Ok ==> player < 5 && is_single_bit(mask) && o.session is Some && n.session is Some)
    &&& (r is Ok ==> player < spec_applicable_player_count(o.session.unwrap()@.current.project.identity.devices))
    &&& (r is Ok ==> exists|k: int| 0 <= k < spec_digital_columns(o.session.unwrap()@.current.project.identity.system).len()
                    && (#[trigger] spec_digital_columns(o.session.unwrap()@.current.project.identity.system)[k]).field == field
                    && spec_digital_columns(o.session.unwrap()@.current.project.identity.system)[k].mask == mask)
    &&& (r is Ok ==> cursor < o.session.unwrap()@.frames().len())
    &&& (r is Ok ==> digital_edit_result(o.session.unwrap()@, n.session.unwrap()@, cursor, player, field, mask, pressed))
    &&& digital_edit_answer(o, n, cursor, player, field, mask, pressed, r)
}

/// Why a ColecoVision edit at row `cursor` of controller `player` is refused
/// before the row is written, if it is.
pub open spec fn coleco_refusal(o: TasEditorWindowState, cursor: u64, player: usize) -> Option<TasEditorError> {
    match o.session {
        None => Some(TasEditorError::NoProject),
        Some(s) => if !spec_is_coleco_system(s@.current.project.identity.system) || player >= 2 {
            Some(TasEditorError::UndeclaredColeco)
        } else if cursor >= s@.frames().len() {
            Some(TasEditorError::EndCursor)
        } else {
            None
        },
    }
}

/// The answers a ColecoVision edit owes once it is not refused: it fails
/// only when the history counter is exhausted.
pub open spec fn coleco_write_answer(o: TasEditorWindowState, n: TasEditorWindowState, cursor: u64, player: usize, r: Result<(), TasEditorError>) -> bool {
    match coleco_refusal(o, cursor, player) {
        Some(e) => r == Err::<(), TasEditorError>(e) && n == o,
        None => (r is Err ==> r == Err::<(), TasEditorError>(TasEditorError::Edit(TasEditError::GenerationExhausted))
            && o.session.unwrap()@.next_generation == u64::MAX)
            && (o.session.unwrap()@.next_generation < u64::MAX ==> r is Ok),
    }
}

/// What toggling one ColecoVision control did.
pub open spec fn coleco_toggle_outcome(o: TasEditorWindowState, n: TasEditorWindowState, cursor: u64, player: usize, control: ColecoControl, r: Result<(), TasEditorError>) -> bool {
    &&& (n.recording == o.recording)
    &&& (r is Err ==> (o.session is Some ==> n.session is Some
                    && n.session.unwrap()@ == o.session.unwrap()@))
    &&& (r is Ok ==> {
                    let s = o.session.unwrap()@;
                    let c = s.frames()[cursor as int].coleco[player as int];
                    &&& spec_is_coleco_system(s.current.project.identity.system) && player < 2 && cursor < s.frames().len()
                    &&& n.session is Some
                    &&& coleco_edit_result(s, n.session.unwrap()@, cursor, player,
                        spec_set_control(c, control, !spec_control_pressed(c, control)))
                })
    &&& coleco_write_answer(o, n, cursor, player, r)
}

/// What choosing a ColecoVision keypad key did.
pub open spec fn coleco_keypad_outcome(o: TasEditorWindowState, n: TasEditorWindowState, cursor: u64, player: usize, key: TasColecoKeypadKey, r: Result<(), TasEditorError>) -> bool {
    &&& (n.recording == o.recording)
    &&& (r is Err ==> (o.session is Some ==> n.session is Some
                    && n.session.unwrap()@ == o.session.unwrap()@))
    &&& (r is Ok ==> {
                    let s = o.session.unwrap()@;
                    let c = s.frames()[cursor as int].coleco[player as int];
                    &&& spec_is_coleco_system(s.current.project.identity.system) && player < 2 && cursor < s.frames().len()
                    &&& n.session is Some
                    &&& if c.keypad == key {
                        n.session.unwrap()@ == s
                    } else {
                        coleco_edit_result(s, n.session.unwrap()@, cursor, player,
                            crate::input::TasColecoControllerInput { keypad: key, ..c })
                    }
                })
    &&& coleco_write_answer(o, n, cursor, player, r)
}

/// What starting frame recording did.
pub open spec fn recording_start_outcome(o: TasEditorWindowState, n: TasEditorWindowState, r: Result<String, TasEditorError>) -> bool {
    &&& (o.recording is Some ==> r == Err::<String, TasEditorError>(TasEditorError::RecordingActive) && n == o)
    &&& (o.recording is None && o.session is None ==> r == Err::<String, TasEditorError>(TasEditorError::NoProject) && n == o)
    &&& (r is Ok ==> {
                    let s = o.session.unwrap()@;
                    let len = s.frames().len();
                    &&& n.recording is Some
                    &&& n.recording.unwrap().cursor == len
                    &&& n.recording.unwrap().branch_id@ == s.branch().id
                    &&& n.session.unwrap()@.frames() == s.frames().push(crate::input::neutral_frame())
                    &&& n.session.unwrap()@.cursor() == len
                    &&& n.execution_preview is None
                    &&& r.unwrap()@ == "Editing new input frame "@ + decimal(len)
                })
    &&& (r is Err ==> (o.session is Some ==> n.session is Some
                    && n.session.unwrap()@ == o.session.unwrap()@) && n.recording == o.recording)
    &&& (o.recording is None && o.session is Some ==> recording_row_answer(o.session.unwrap()@, r))
}

/// Whether a new neutral row can be appended for entry: below the frame
/// limit and with the history counter not exhausted.
pub open spec fn recording_row_answer(s: SessionModel, r: Result<String, TasEditorError>) -> bool {
    if s.frames().len() >= crate::limits::MAX_PROJECT_FRAMES {
        r == Err::<String, TasEditorError>(TasEditorError::Edit(TasEditError::FrameLimit))
    } else if s.next_generation == u64::MAX {
        r == Err::<String, TasEditorError>(TasEditorError::Edit(TasEditError::GenerationExhausted))
    } else {
        r is Ok
    }
}

/// What accepting the recording row did.
pub open spec fn recording_capture_outcome(o: TasEditorWindowState, n: TasEditorWindowState, r: Result<String, TasEditorError>) -> bool {
    &&& (o.recording is None ==> r == Err::<String, TasEditorError>(TasEditorError::RecordingInactive) && n == o)
    &&& (o.recording is Some && ({
                    let rec = o.recording.unwrap();
                    let s = o.session.unwrap()@;
                    !(rec.branch_id@ == s.branch().id && rec.cursor == s.cursor() && rec.cursor < s.frames().len())
                }) ==> r == Err::<String, TasEditorError>(TasEditorError::RecordingRowChanged) && n == o)
    &&& (r is Ok ==> {
                    let rec = o.recording.unwrap();
                    let s = o.session.unwrap()@;
                    &&& rec.branch_id@ == s.branch().id && rec.cursor == s.cursor() && rec.cursor < s.frames().len()
                    &&& n.recording is Some
                    &&& n.recording.unwrap().cursor == rec.cursor + 1
                    &&& n.session.unwrap()@.frames() == s.frames().push(crate::input::neutral_frame())
                    &&& n.session.unwrap()@.cursor() == s.frames().len()
                    &&& r->Ok_0@ == "Kept input frame "@ + decimal(rec.cursor as nat) + "; ready for frame "@
                        + decimal((rec.cursor + 1) as nat)
                })
    &&& (r is Err ==> (o.session is Some ==> n.session is Some
                    && n.session.unwrap()@ == o.session.unwrap()@))
    &&& (o.recording is Some && o.session is Some && ({
                    let rec = o.recording.unwrap();
                    let s = o.session.unwrap()@;
                    rec.branch_id@ == s.branch().id && rec.cursor == s.cursor() && rec.cursor < s.frames().len()
                }) ==> recording_row_answer(o.session.unwrap()@, r))
}

/// What stopping frame recording did.
pub open spec fn recording_stop_outcome(o: TasEditorWindowState, n: TasEditorWindowState, r: Option<String>) -> bool {
    &&& (n.recording is None)
    &&& (o.recording is None ==> r is None && n == o)
    &&& (o.recording is Some ==> r is Some && r.unwrap()@ == "Finished manual row entry"@ && {
                    let cp = o.recording.unwrap().checkpoint@;
                    n.session.unwrap()@.current == cp.snapshot && n.session.unwrap()@.undo == cp.undo
                        && n.session.unwrap()@.redo == cp.redo
                })
}

/// What moving the timeline selection did.
pub open spec fn selection_change_outcome(o: TasEditorWindowState, n: TasEditorWindowState, change: TasTimelineSelectionChange, r: Result<(), TasEditorError>) -> bool {
    &&& (o.session is None ==> r == Err::<(), TasEditorError>(TasEditorError::NoProject) && n == o)
    &&& (r is Ok ==> n.timeline_follow_selection && n.session is Some && n.execution_preview is None)
    &&& (r is Ok ==> match change {
                    TasTimelineSelectionChange::Boundary(c) => {
                        let count = n.session.unwrap()@.frames().len();
                        &&& n.session.unwrap()@.cursor() == if c <= count { c } else { count as u64 }
                        &&& n.timeline_selection.rows == if n.session.unwrap()@.cursor() < count {
                            Some((n.session.unwrap()@.cursor(), n.session.unwrap()@.cursor()))
                        } else {
                            None::<(u64, u64)>
                        }
                    },
                    _ => n.session.unwrap()@.cursor() == spec_active_cursor(
                        n.timeline_selection.rows,
                        o.session.unwrap()@.cursor(),
                        n.session.unwrap()@.frames().len() as u64,
                    ),
                })
    &&& (r is Err ==> n == o)
    &&& (o.session is Some ==> match change {
        TasTimelineSelectionChange::Frame { frame, .. } => if frame < o.session.unwrap()@.frames().len() {
            r is Ok
        } else {
            r == Err::<(), TasEditorError>(TasEditorError::EndCursor)
        },
        TasTimelineSelectionChange::Range { .. } => if o.session.unwrap()@.frames().len() > 0 {
            r is Ok
        } else {
            r == Err::<(), TasEditorError>(TasEditorError::EmptyMovie)
        },
        _ => r is Ok,
    })
}

impl TasEditorWindowState {
    /// Drops the recording draft, restoring the session as it was before the
    /// draft began; `false` when no draft was active.
    pub fn discard_recording_draft(&mut self) -> (r: bool)
        requires
            old(self).wf(),
        ensures
            final(self).wf(),
            r == (old(self).recording is Some),
            !r ==> *final(self) == *old(self),
            r ==> {
                let cp = old(self).recording.unwrap().checkpoint@;
                let s = old(self).session.unwrap()@;
                &&& final(self).recording is None
                &&& final(self).session is Some
                &&& final(self).session.unwrap()@ == (SessionModel { current: cp.snapshot, undo: cp.undo, redo: cp.redo, ..s })
                &&& final(self).execution_preview is None
                &&& final(self).timeline_selection == old(self).timeline_selection
                &&& final(self).live_status == old(self).live_status
                &&& final(self).pending_host_request == old(self).pending_host_request
            },
    {
        let recording = match self.recording.take() {
            Some(r) => r,
            None => return false,
        };
        let mut session = match self.session.take() {
            Some(s) => s,
            None => return true,
        };
        session.discard_recording_draft(&recording.checkpoint);
        self.session = Some(session);
        self.execution_preview = None;
        true
    }

    /// Starts entering rows by hand: a neutral row is appended at the end of
    /// the selected branch and the cursor moves onto it.
    pub fn start_frame_recording(&mut self) -> (r: Result<String, TasEditorError>)
        requires
            old(self).wf(),
        ensures
            final(self).wf(),
            recording_start_outcome(*old(self), *final(self), r),
    {
        if self.recording.is_some() {
            return Err(TasEditorError::RecordingActive);
        }
        let mut session = match self.session.take() {
            Some(s) => s,
            None => return Err(TasEditorError::NoProject),
        };
        let branch_id = string_of(session.selected_branch_id());
        let cursor = session.frame_count();
        match session.begin_recording_draft() {
            Ok(checkpoint) => {
                proof {
                    assert(session@.frames() == session@.current.project.branches[session@.current.selected].frames);
                }
                self.session = Some(session);
                self.recording = Some(TasEditorRecordingState { branch_id, cursor, checkpoint });
                self.execution_preview = None;
                let mut message = string_of("Editing new input frame ");
                push_decimal(&mut message, cursor);
                Ok(message)
            },
            Err(e) => {
                self.session = Some(session);
                Err(TasEditorError::Edit(e))
            },
        }
    }

    /// Keeps the row being entered and starts the next one after it.
    pub fn capture_recording_frame(&mut self) -> (r: Result<String, TasEditorError>)
        requires
            old(self).wf(),
        ensures
            final(self).wf(),
            recording_capture_outcome(*old(self), *final(self), r),
    {
        let (accepted, same_row) = match (&self.recording, &self.session) {
            (Some(rec), Some(session)) => (
                rec.cursor,
                crate::text::str_eq(rec.branch_id.as_str(), session.selected_branch_id())
                    && session.cursor() == rec.cursor && rec.cursor < session.frame_count(),
            ),
            (None, _) => return Err(TasEditorError::RecordingInactive),
            (Some(_), None) => return Err(TasEditorError::NoProject),
        };
        if !same_row {
            return Err(TasEditorError::RecordingRowChanged);
        }
        let mut session = match self.session.take() {
            Some(s) => s,
            None => return Err(TasEditorError::NoProject),
        };
        let ghost before = session@;
        let branch_id = string_of(session.selected_branch_id());
        let next = session.frame_count();
        match session.begin_recording_draft() {
            Ok(checkpoint) => {
                self.session = Some(session);
                self.recording = Some(TasEditorRecordingState { branch_id, cursor: accepted + 1, checkpoint });
                if matches!(self.execution_availability, crate::editor::TasEditorExecutionAvailability::Ready) {
                    self.pending_seek = Some(next);
                }
                let mut message = string_of("Kept input frame ");
                push_decimal(&mut message, accepted);
                push_str(&mut message, "; ready for frame ");
                push_decimal(&mut message, accepted + 1);
                Ok(message)
            },
            Err(e) => {
                self.session = Some(session);
                Err(TasEditorError::Edit(e))
            },
        }
    }

    /// Finishes frame recording, dropping the row being entered.
    pub fn stop_frame_recording(&mut self) -> (r: Option<String>)
        requires
            old(self).wf(),
        ensures
            final(self).wf(),
            recording_stop_outcome(*old(self), *final(self), r),
    {
        if self.discard_recording_draft() {
            Some(string_of("Finished manual row entry"))
        } else {
            None
        }
    }

    /// Presses, releases (`pressed`) or toggles (`None`) one digital control
    /// of one player at row `cursor` of the selected branch.
    pub fn edit_digital_input(&mut self, cursor: u64, player: usize, field: DigitalField, mask: u8, pressed: Option<bool>) -> (r: Result<(), TasEditorError>)
        requires
            old(self).wf(),
        ensures
            final(self).wf(),
            digital_edit_outcome(*old(self), *final(self), cursor, player, field, mask, pressed, r),
    {
        if player >= 5 || !single_bit(mask) {
            return Err(TasEditorError::InvalidColumn);
        }
        let session = match &self.session {
            Some(s) => s,
            None => return Err(TasEditorError::NoProject),
        };
        let identity = &session.project().identity;
        if player >= applicable_player_count(identity) {
            return Err(TasEditorError::UndeclaredPlayer);
        }
        let columns = digital_columns(identity.system.as_str());
        if !has_column(&columns, field, mask) {
            return Err(TasEditorError::UndeclaredControl);
        }
        if cursor >= session.frame_count() {
            return Err(TasEditorError::EndCursor);
        }
        let mut input = session.selected_branch().input_at(cursor);
        let ghost old_input = input;
        let ghost s0 = session@;
        proof {
            assert(columns@ == spec_digital_columns(s0.current.project.identity.system));
            assert(old_input == s0.frames()[cursor as int]);
        }
        let mut c = input.players[player];
        let ghost c0 = c;
        let current = match field {
            DigitalField::Buttons => c.buttons & mask != 0,
            DigitalField::Dpad => c.dpad & mask != 0,
        };
        let on = match pressed {
            Some(p) => p,
            None => !current,
        };
        if current == on {
            proof {
                assert(current == digital_pressed(c0, field, mask));
            }
            return Ok(());
        }
        match field {
            DigitalField::Buttons => {
                c.buttons = if on { c.buttons | mask } else { c.buttons & !mask };
            },
            DigitalField::Dpad => {
                c.dpad = if on { c.dpad | mask } else { c.dpad & !mask };
            },
        }
        input.players[player] = c;
        proof {
            assert(c == with_digital(c0, field, mask, on));
            assert(frame_with_player(old_input, input, player as int, with_digital(c0, field, mask, on)));
            assert(mask != 0);
            let b0 = c0.buttons;
            let d0 = c0.dpad;
            if on {
                assert((b0 | mask) & mask != 0) by (bit_vector)
                    requires mask != 0;
                assert((d0 | mask) & mask != 0) by (bit_vector)
                    requires mask != 0;
            } else {
                assert((b0 & !mask) & mask == 0) by (bit_vector);
                assert((d0 & !mask) & mask == 0) by (bit_vector);
            }
            assert(digital_pressed(c, field, mask) == on);
            assert(input.players[player as int] != old_input.players[player as int]);
            assert(input != old_input);
        }
        let branch_id = string_of(session.selected_branch_id());
        let mut session = match self.session.take() {
            Some(s) => s,
            None => return Err(TasEditorError::NoProject),
        };
        let ghost before = session@;
        proof {
            crate::project::lemma_branch_index_of_member(before.current.project.branches, before.current.selected);
        }
        match session.set_input_range(branch_id.as_str(), cursor, 1, input) {
            Ok(outcome) => {
                proof {
                    lemma_recording_stays_ok(self.recording, before, session@);
                    assert(fill_range(before.frames(), cursor as int, 1, input)[cursor as int] != before.frames()[cursor as int]);
                    assert(outcome.changed);
                    assert(session@.frames() == fill_range(before.frames(), cursor as int, 1, input));
                    assert(before == s0);
                    assert(c0 == s0.frames()[cursor as int].players[player as int]);
                    assert(on != digital_pressed(c0, field, mask));
                    assert(frame_with_player(s0.frames()[cursor as int], input, player as int, with_digital(c0, field, mask, on)));
                    assert(digital_edit_result(before, session@, cursor, player, field, mask, pressed));
                }
                self.session = Some(session);
                self.execution_preview = None;
                if outcome.changed {
                    self.queue_linked_edit_reconstruction(cursor, cursor + 1);
                }
                Ok(())
            },
            Err(e) => {
                self.session = Some(session);
                Err(TasEditorError::Edit(e))
            },
        }
    }

    /// Replaces row `cursor`'s ColecoVision controller `player` by `controller`
    /// as an edit of the selected branch.
    fn set_coleco_controller(&mut self, cursor: u64, player: usize, controller: crate::input::TasColecoControllerInput) -> (r: Result<(), TasEditorError>)
        requires
            old(self).wf(),
            old(self).session is Some,
            player < 2,
            cursor < old(self).session.unwrap()@.frames().len(),
        ensures
            final(self).wf(),
            final(self).recording == old(self).recording,
            final(self).session is Some,
            r is Err ==> final(self).session.unwrap()@ == old(self).session.unwrap()@,
            r is Ok ==> coleco_edit_result(old(self).session.unwrap()@, final(self).session.unwrap()@, cursor, player, controller),
            r is Err ==> r == Err::<(), TasEditorError>(TasEditorError::Edit(TasEditError::GenerationExhausted))
                && old(self).session.unwrap()@.next_generation == u64::MAX
                && old(self).session.unwrap()@.frames()[cursor as int].coleco[player as int] != controller,
            old(self).session.unwrap()@.frames()[cursor as int].coleco[player as int] == controller
                || old(self).session.unwrap()@.next_generation < u64::MAX ==> r is Ok,
    {
        let mut session = match self.session.take() {
            Some(s) => s,
            None => return Err(TasEditorError::NoProject),
        };
        let ghost before = session@;
        let mut input = session.selected_branch().input_at(cursor);
        let ghost old_input = input;
        if input.coleco[player] == controller {
            self.session = Some(session);
            return Ok(());
        }
        input.coleco[player] = controller;
        let branch_id = string_of(session.selected_branch_id());
        proof {
            crate::project::lemma_branch_index_of_member(before.current.project.branches, before.current.selected);
            assert(frame_with_coleco(old_input, input, player as int, controller));
        }
        match session.set_input_range(branch_id.as_str(), cursor, 1, input) {
            Ok(outcome) => {
                proof {
                    lemma_recording_stays_ok(self.recording, before, session@);
                    if outcome.changed {
                        assert(session@.frames() =~= fill_range(before.frames(), cursor as int, 1, input));
                    } else {
                        assert(fill_range(before.frames(), cursor as int, 1, input) =~= before.frames());
                    }
                }
                self.session = Some(session);
                self.execution_preview = None;
                if outcome.changed {
                    self.queue_linked_edit_reconstruction(cursor, cursor + 1);
                }
                Ok(())
            },
            Err(e) => {
                self.session = Some(session);
                Err(TasEditorError::Edit(e))
            },
        }
    }

    /// Toggles one ColecoVision control of `player` at row `cursor`.
    pub fn toggle_coleco_control(&mut self, cursor: u64, player: usize, control: ColecoControl) -> (r: Result<(), TasEditorError>)
        requires
            old(self).wf(),
        ensures
            final(self).wf(),
            coleco_toggle_outcome(*old(self), *final(self), cursor, player, control, r),
    {
        let session = match &self.session {
            Some(s) => s,
            None => return Err(TasEditorError::NoProject),
        };
        if !is_coleco_project(&session.project().identity) || player >= 2 {
            return Err(TasEditorError::UndeclaredColeco);
        }
        if cursor >= session.frame_count() {
            return Err(TasEditorError::EndCursor);
        }
        let mut controller = session.selected_branch().input_at(cursor).coleco[player];
        let pressed = control_pressed(controller, control);
        set_control(&mut controller, control, !pressed);
        self.set_coleco_controller(cursor, player, controller)
    }

    /// Sets the keypad key of ColecoVision controller `player` at row `cursor`.
    pub fn set_coleco_keypad(&mut self, cursor: u64, player: usize, key: TasColecoKeypadKey) -> (r: Result<(), TasEditorError>)
        requires
            old(self).wf(),
        ensures
            final(self).wf(),
            coleco_keypad_outcome(*old(self), *final(self), cursor, player, key, r),
    {
        let session = match &self.session {
            Some(s) => s,
            None => return Err(TasEditorError::NoProject),
        };
        if !is_coleco_project(&session.project().identity) || player >= 2 {
            return Err(TasEditorError::UndeclaredColeco);
        }
        if cursor >= session.frame_count() {
            return Err(TasEditorError::EndCursor);
        }
        let mut controller = session.selected_branch().input_at(cursor).coleco[player];
        if controller.keypad == key {
            return Ok(());
        }
        controller.keypad = key;
        self.set_coleco_controller(cursor, player, controller)
    }

    /// Moves the cursor and the selection. Leaving the row being recorded
    /// drops the recording draft first.
    pub fn apply_timeline_selection_change(&mut self, change: TasTimelineSelectionChange) -> (r: Result<(), TasEditorError>)
        requires
            old(self).wf(),
        ensures
            final(self).wf(),
            selection_change_outcome(*old(self), *final(self), change, r),
    {
        let count = match &self.session {
            Some(s) => s.frame_count(),
            None => return Err(TasEditorError::NoProject),
        };
        let old_cursor = match &self.session {
            Some(s) => s.cursor(),
            None => 0,
        };
        let mut selection = self.timeline_selection;
        let target = match change {
            TasTimelineSelectionChange::Boundary(c) => if c <= count { c } else { count },
            TasTimelineSelectionChange::Frame { frame, extend_selection } => {
                if frame >= count {
                    return Err(TasEditorError::EndCursor);
                }
                selection.select_frame(frame, extend_selection);
                frame
            },
            TasTimelineSelectionChange::Range { anchor, active } => match selection.select_frame_range(count, anchor, active) {
                Some(t) => t,
                None => return Err(TasEditorError::EmptyMovie),
            },
            TasTimelineSelectionChange::Navigate { navigation, extend_selection } => selection.navigate(count, old_cursor, navigation, extend_selection),
        };
        let leaves_draft = match &self.recording {
            Some(rec) => rec.cursor != target,
            None => false,
        };
        if leaves_draft {
            self.discard_recording_draft();
        }
        let mut session = match self.session.take() {
            Some(s) => s,
            None => return Err(TasEditorError::NoProject),
        };
        let ghost before = session@;
        let count = session.frame_count();
        match change {
            TasTimelineSelectionChange::Boundary(c) => {
                let cursor = if c <= count { c } else { count };
                let _ = session.set_cursor(cursor);
                selection.collapse_to_cursor(cursor, count);
            },
            _ => {
                let cursor = selection.active_cursor(count, old_cursor);
                let _ = session.set_cursor(cursor);
            },
        }
        proof {
            lemma_recording_stays_ok(self.recording, before, session@);
        }
        self.session = Some(session);
        self.timeline_selection = selection;
        self.timeline_follow_selection = true;
        self.execution_preview = None;
        Ok(())
    }
}

/// The session after row `cursor`'s ColecoVision controller `player` is set
/// to `controller`: only that controller of that row changes.
pub open spec fn coleco_edit_result(s: SessionModel, n: SessionModel, cursor: u64, player: usize, controller: crate::input::TasColecoControllerInput) -> bool {
    let f = s.frames()[cursor as int];
    if f.coleco[player as int] == controller {
        n == s
    } else {
        &&& n.frames().len() == s.frames().len()
        &&& forall|k: int| 0 <= k < s.frames().len() && k != cursor ==> #[trigger] n.frames()[k] == s.frames()[k]
        &&& frame_with_coleco(f, n.frames()[cursor as int], player as int, controller)
        &&& s.committed(n, crate::session::SnapshotModel {
            project: crate::session::with_branch_frames(s.current.project, s.current.selected, n.frames(), s.next_generation),
            ..s.current
        })
    }
}

} // verus!
