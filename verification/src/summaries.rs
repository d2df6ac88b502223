//! Plain-text renderings of one frame of input, used when comparing branches,
//! and the jump from a difference to the branch it was found on.
use vstd::prelude::*;

use crate::coleco_input::{keypad_label, spec_keypad_label};
use crate::editor::{TasEditorError, TasEditorWindowState, lemma_recording_stays_ok};
use crate::input::{TasCameraInput, TasColecoControllerInput, TasControllerInput, TasDigest, TasInputFrame};
use crate::project::branch_index_of;
use crate::session::{SessionModel, TasEditorSession};
use crate::text::{decimal, hex, push_decimal, push_hex, push_str, str_eq, string_of};

verus! {

/// How a canonical event group differs between two branches.
#[derive(Clone, Copy, Debug, PartialEq, Eq, Structural)]
pub enum TasEventDiffKind {
    Changed,
    SourceOnly,
    TargetOnly,
}

/// The label of an event difference.
pub fn event_kind_label(kind: TasEventDiffKind) -> (r: &'static str)
    ensures
        r == match kind {
            TasEventDiffKind::Changed => "changed canonical event group",
            TasEventDiffKind::SourceOnly => "source-only canonical event group",
            TasEventDiffKind::TargetOnly => "target-only canonical event group",
        },
{
    match kind {
        TasEventDiffKind::Changed => "changed canonical event group",
        TasEventDiffKind::SourceOnly => "source-only canonical event group",
        TasEventDiffKind::TargetOnly => "target-only canonical event group",
    }
}

pub open spec fn flag(b: bool) -> Seq<char> {
    if b { "1"@ } else { "0"@ }
}

fn push_flag(s: &mut String, b: bool)
    ensures
        final(s)@ == old(s)@ + flag(b),
{
    push_str(s, if b { "1" } else { "0" });
}

/// `pN=bXX/dXX` for player `index` (from zero).
pub open spec fn player_text(index: nat, c: TasControllerInput) -> Seq<char> {
    "p"@ + decimal(index + 1) + "=b"@ + hex(c.buttons as nat, 2) + "/d"@ + hex(c.dpad as nat, 2)
}

/// The five players, separated by spaces.
pub open spec fn players_text(f: TasInputFrame) -> Seq<char> {
    player_text(0, f.players[0]) + " "@ + player_text(1, f.players[1]) + " "@ + player_text(2, f.players[2])
        + " "@ + player_text(3, f.players[3]) + " "@ + player_text(4, f.players[4])
}

/// Both ColecoVision controllers: `coleco=` then, for each, its number,
/// `uX/rX/dX/lX/fire-lX/fire-rX` and `key=K`.
pub open spec fn spec_coleco_input_summary(f: TasInputFrame) -> Seq<char> {
    coleco_onto(coleco_onto("coleco="@, 0, f.coleco[0]) + " "@, 1, f.coleco[1])
}

pub open spec fn zapper_position_text(f: TasInputFrame) -> Seq<char> {
    match f.zapper.screen_pos {
        Some(p) => decimal(p.x as nat) + ","@ + decimal(p.y as nat),
        None => "none"@,
    }
}

pub open spec fn zapper_text(f: TasInputFrame) -> Seq<char> {
    "zapper=e"@ + flag(f.zapper.enabled) + "/t"@ + flag(f.zapper.trigger) + "/h"@ + flag(f.zapper.hit)
        + "/pos="@ + zapper_position_text(f)
}

pub open spec fn tilt_text(f: TasInputFrame) -> Seq<char> {
    "tilt=0x"@ + hex(f.tilt_x_bits as nat, 8) + "/0x"@ + hex(f.tilt_y_bits as nat, 8)
}

fn push_player(s: &mut String, index: u64, c: TasControllerInput)
    requires
        index < 5,
    ensures
        final(s)@ == old(s)@ + player_text(index as nat, c),
{
    push_str(s, "p");
    push_decimal(s, index + 1);
    push_str(s, "=b");
    push_hex(s, c.buttons as u64, 2);
    push_str(s, "/d");
    push_hex(s, c.dpad as u64, 2);
    proof {
        assert(final(s)@ =~= old(s)@ + player_text(index as nat, c)) by {
            assert(final(s)@ == old(s)@ + "p"@ + decimal(index as nat + 1) + "=b"@ + hex(c.buttons as nat, 2) + "/d"@ + hex(c.dpad as nat, 2));
        }
    }
}

fn push_players(s: &mut String, f: &TasInputFrame)
    ensures
        final(s)@ == old(s)@ + players_text(*f),
{
    push_player(s, 0, f.players[0]);
    push_str(s, " ");
    push_player(s, 1, f.players[1]);
    push_str(s, " ");
    push_player(s, 2, f.players[2]);
    push_str(s, " ");
    push_player(s, 3, f.players[3]);
    push_str(s, " ");
    push_player(s, 4, f.players[4]);
    proof {
        assert(final(s)@ =~= old(s)@ + players_text(*f));
    }
}

/// `acc` followed by the direction and fire part of a ColecoVision controller.
pub open spec fn coleco_controls_onto(acc: Seq<char>, c: TasColecoControllerInput) -> Seq<char> {
    acc + "=u"@ + flag(c.up) + "/r"@ + flag(c.right) + "/d"@ + flag(c.down) + "/l"@ + flag(c.left)
        + "/fire-l"@ + flag(c.left_button) + "/fire-r"@ + flag(c.right_button)
}

/// `acc` followed by the text of ColecoVision controller `index`.
pub open spec fn coleco_onto(acc: Seq<char>, index: nat, c: TasColecoControllerInput) -> Seq<char> {
    coleco_controls_onto(acc + "p"@ + decimal(index + 1), c) + "/key="@ + spec_keypad_label(c.keypad)@
}

fn push_coleco(s: &mut String, index: u64, c: TasColecoControllerInput)
    requires
        index < 2,
    ensures
        final(s)@ == coleco_onto(old(s)@, index as nat, c),
{
    push_str(s, "p");
    push_decimal(s, index + 1);
    push_str(s, "=u");
    push_flag(s, c.up);
    push_str(s, "/r");
    push_flag(s, c.right);
    push_str(s, "/d");
    push_flag(s, c.down);
    push_str(s, "/l");
    push_flag(s, c.left);
    push_str(s, "/fire-l");
    push_flag(s, c.left_button);
    push_str(s, "/fire-r");
    push_flag(s, c.right_button);
    push_str(s, "/key=");
    push_str(s, keypad_label(c.keypad));
}

/// Both ColecoVision controllers of a frame.
pub fn coleco_input_summary(input: &TasInputFrame) -> (r: String)
    ensures
        r@ == spec_coleco_input_summary(*input),
{
    let mut s = string_of("coleco=");
    push_coleco(&mut s, 0, input.coleco[0]);
    push_str(&mut s, " ");
    push_coleco(&mut s, 1, input.coleco[1]);
    s
}

#[verifier::rlimit(60)]
fn push_zapper(s: &mut String, f: &TasInputFrame)
    ensures
        final(s)@ == old(s)@ + zapper_text(*f),
{
    push_str(s, "zapper=e");
    push_flag(s, f.zapper.enabled);
    push_str(s, "/t");
    push_flag(s, f.zapper.trigger);
    push_str(s, "/h");
    push_flag(s, f.zapper.hit);
    push_str(s, "/pos=");
    match f.zapper.screen_pos {
        Some(p) => {
            push_decimal(s, p.x as u64);
            push_str(s, ",");
            push_decimal(s, p.y as u64);
        },
        None => push_str(s, "none"),
    }
    proof {
        assert(final(s)@ =~= old(s)@ + zapper_text(*f));
    }
}

fn push_tilt(s: &mut String, f: &TasInputFrame)
    ensures
        final(s)@ == old(s)@ + tilt_text(*f),
{
    push_str(s, "tilt=0x");
    push_hex(s, f.tilt_x_bits as u64, 8);
    push_str(s, "/0x");
    push_hex(s, f.tilt_y_bits as u64, 8);
    proof {
        assert(final(s)@ =~= old(s)@ + tilt_text(*f));
    }
}

/// The camera line of a branch-difference side: the digest goes on a line
/// of its own.
pub open spec fn camera_text(f: TasInputFrame) -> Seq<char> {
    match f.camera {
        TasCameraInput::NoFrame => "camera=none"@,
        TasCameraInput::Blob(d) => "camera=blob:\n"@ + hex(d.0 as nat, 16),
    }
}

/// The five lines describing one side of an input difference: players,
/// ColecoVision controllers, light gun, tilt and camera.
pub fn branch_diff_input_summary(input: &TasInputFrame) -> (r: Vec<String>)
    ensures
        r@.len() == 5,
        r@[0]@ == players_text(*input),
        r@[1]@ == spec_coleco_input_summary(*input),
        r@[2]@ == zapper_text(*input),
        r@[3]@ == tilt_text(*input),
        r@[4]@ == camera_text(*input),
{
    let mut players = String::new();
    push_players(&mut players, input);
    let coleco = coleco_input_summary(input);
    let mut zapper = String::new();
    push_zapper(&mut zapper, input);
    let mut tilt = String::new();
    push_tilt(&mut tilt, input);
    let camera = match input.camera {
        TasCameraInput::NoFrame => string_of("camera=none"),
        TasCameraInput::Blob(d) => {
            let mut c = string_of("camera=blob:\n");
            push_hex(&mut c, d.0, 16);
            c
        },
    };
    proof {
        assert(players@ =~= players_text(*input));
        assert(zapper@ =~= zapper_text(*input));
        assert(tilt@ =~= tilt_text(*input));
        assert(camera@ =~= camera_text(*input));
    }
    let mut r: Vec<String> = Vec::new();
    r.push(players);
    r.push(coleco);
    r.push(zapper);
    r.push(tilt);
    r.push(camera);
    r
}

/// One line describing a whole frame.
pub open spec fn spec_raw_input_summary(f: TasInputFrame) -> Seq<char> {
    players_text(f) + "; "@ + spec_coleco_input_summary(f) + "; "@ + zapper_text(f) + "; "@ + tilt_text(f)
        + "; camera="@ + match f.camera {
        TasCameraInput::NoFrame => "none"@,
        TasCameraInput::Blob(d) => "blob:"@ + hex(d.0 as nat / 0x1_0000, 12),
    }
}

/// One line describing a whole frame.
pub fn raw_input_summary(input: &TasInputFrame) -> (r: String)
    ensures
        r@ == spec_raw_input_summary(*input),
{
    let mut s = String::new();
    push_players(&mut s, input);
    push_str(&mut s, "; ");
    let coleco = coleco_input_summary(input);
    push_str(&mut s, coleco.as_str());
    push_str(&mut s, "; ");
    push_zapper(&mut s, input);
    push_str(&mut s, "; ");
    push_tilt(&mut s, input);
    push_str(&mut s, "; camera=");
    match input.camera {
        TasCameraInput::NoFrame => push_str(&mut s, "none"),
        TasCameraInput::Blob(d) => {
            push_str(&mut s, "blob:");
            push_hex(&mut s, d.0 / 0x1_0000, 12);
        },
    }
    proof {
        assert(s@ =~= spec_raw_input_summary(*input));
    }
    s
}

/// What `default_target_branch_id` returns for a session.
pub open spec fn default_target_ok(s: crate::session::SessionModel, r: Option<String>) -> bool {
    let b = s.current.project.branches;
    let source = s.branch();
    if source.parent is Some && source.parent.unwrap().branch_id != source.id
        && s.current.project.has_branch(source.parent.unwrap().branch_id) {
        r is Some && r.unwrap()@ == source.parent.unwrap().branch_id
    } else {
        match r {
            Some(id) => exists|k: int| 0 <= k < b.len() && #[trigger] b[k].id == id@ && id@ != source.id
                && forall|j: int| 0 <= j < k ==> #[trigger] b[j].id == source.id,
            None => forall|j: int| 0 <= j < b.len() ==> #[trigger] b[j].id == source.id,
        }
    }
}

/// The branch to compare the selected branch with by default: its parent
/// when that still exists, else the first other branch.
pub fn default_target_branch_id(session: &TasEditorSession) -> (r: Option<String>)
    requires
        session@.wf(),
    ensures
        default_target_ok(session@, r),
{
    let source = session.selected_branch();
    let project = session.project();
    match &source.parent {
        Some(o) => {
            if !str_eq(o.branch_id.as_str(), source.id.as_str()) && project.branch(o.branch_id.as_str()).is_some() {
                return Some(string_of(o.branch_id.as_str()));
            }
        },
        None => {},
    }
    let ghost b = project@.branches;
    let mut k: usize = 0;
    while k < project.branches.len()
        invariant
            b == project@.branches,
            source@ == session@.branch(),
            project@ == session@.current.project,
            !(source@.parent is Some && source@.parent.unwrap().branch_id != source@.id
                && session@.current.project.has_branch(source@.parent.unwrap().branch_id)),
            0 <= k <= b.len(),
            forall|j: int| 0 <= j < k ==> #[trigger] b[j].id == source@.id,
        decreases b.len() - k,
    {
        proof {
            assert(b[k as int] == project.branches@[k as int]@);
        }
        if !str_eq(project.branches[k].id.as_str(), source.id.as_str()) {
            let id = string_of(project.branches[k].id.as_str());
            proof {
                assert(b[k as int].id == id@);
                assert(id@ != session@.branch().id);
                assert(exists|x: int| 0 <= x < b.len() && #[trigger] b[x].id == id@ && id@ != session@.branch().id
                    && forall|j: int| 0 <= j < x ==> #[trigger] b[j].id == session@.branch().id);
            }
            return Some(id);
        }
        k += 1;
    }
    None
}

/// A jump to a boundary of the branch a difference was found on, drafted
/// against one project state and that branch's movie.
#[derive(Clone, Debug, PartialEq, Eq)]
pub struct TasBranchDiffJumpAction {
    pub expected_project_digest: TasDigest,
    pub source_branch_id: String,
    pub source_movie_digest: TasDigest,
    pub cursor: u64,
}

impl TasBranchDiffJumpAction {
    pub fn new(expected_project_digest: TasDigest, source_branch_id: String, source_movie_digest: TasDigest, cursor: u64) -> (r: Self)
        ensures
            r.expected_project_digest == expected_project_digest,
            r.source_branch_id@ == source_branch_id@,
            r.source_movie_digest == source_movie_digest,
            r.cursor == cursor,
    {
        TasBranchDiffJumpAction { expected_project_digest, source_branch_id, source_movie_digest, cursor }
    }

    pub fn cursor(&self) -> (r: u64)
        ensures
            r == self.cursor,
    {
        self.cursor
    }
}

/// Why a jump to a difference is refused on session `s`, if it is: the
/// project changed, or the source branch is gone, holds another movie or is
/// shorter than the boundary.
pub open spec fn branch_diff_jump_refusal(s: SessionModel, action: TasBranchDiffJumpAction) -> Option<TasEditorError> {
    let branches = s.current.project.branches;
    if action.expected_project_digest != TasDigest(s.current.project.edit_generation) {
        Some(TasEditorError::StaleProject)
    } else if !s.current.project.has_branch(action.source_branch_id@) {
        Some(TasEditorError::StaleBranch)
    } else if branches[branch_index_of(branches, action.source_branch_id@).unwrap()].revision != action.source_movie_digest.0 {
        Some(TasEditorError::StaleBranch)
    } else if action.cursor > branches[branch_index_of(branches, action.source_branch_id@).unwrap()].frames.len() {
        Some(TasEditorError::StaleBranch)
    } else {
        None
    }
}

impl TasEditorWindowState {
    /// Selects the source branch of a difference at its boundary and shows
    /// that boundary, after checking that the project and that branch's
    /// movie are as the difference was computed.
    pub fn apply_branch_diff_jump_action(&mut self, action: &TasBranchDiffJumpAction) -> (r: Result<String, TasEditorError>)
        requires
            old(self).wf(),
        ensures
            final(self).wf(),
            final(self).recording == old(self).recording,
            final(self).pending_host_request == old(self).pending_host_request,
            final(self).marked_ranges == old(self).marked_ranges,
            r is Err ==> (old(self).session is Some ==> final(self).session is Some
                && final(self).session.unwrap()@ == old(self).session.unwrap()@),
            old(self).session is None ==> r == Err::<String, TasEditorError>(TasEditorError::NoProject),
            old(self).session is Some && old(self).recording is Some
                ==> r == Err::<String, TasEditorError>(TasEditorError::RecordingActive),
            old(self).session is Some && old(self).recording is None ==> match branch_diff_jump_refusal(old(self).session.unwrap()@, *action) {
                Some(e) => r == Err::<String, TasEditorError>(e),
                None => {
                    let s = old(self).session.unwrap()@;
                    let b = s.current.project.branches;
                    &&& r is Ok
                    &&& r->Ok_0@ == "Selected diff source branch "@ + action.source_branch_id@ + " at cursor "@
                        + decimal(action.cursor as nat)
                    &&& final(self).session is Some
                    &&& s.moved_to(final(self).session.unwrap()@, branch_index_of(b, action.source_branch_id@).unwrap(), action.cursor)
                    &&& final(self).execution_preview is None
                    &&& final(self).timeline_follow_selection
                    &&& final(self).timeline_selection.rows == if action.cursor < b[branch_index_of(b, action.source_branch_id@).unwrap()].frames.len() {
                        Some((action.cursor, action.cursor))
                    } else {
                        None::<(u64, u64)>
                    }
                },
            },
    {
        let session = match &self.session {
            Some(s) => s,
            None => return Err(TasEditorError::NoProject),
        };
        if self.recording.is_some() {
            return Err(TasEditorError::RecordingActive);
        }
        if session.project_content_digest() != action.expected_project_digest {
            return Err(TasEditorError::StaleProject);
        }
        let frame_count = match session.project().branch(action.source_branch_id.as_str()) {
            Some(b) => {
                if b.revision != action.source_movie_digest.0 {
                    return Err(TasEditorError::StaleBranch);
                }
                b.frame_count()
            },
            None => return Err(TasEditorError::StaleBranch),
        };
        if action.cursor > frame_count {
            return Err(TasEditorError::StaleBranch);
        }
        let mut session = match self.session.take() {
            Some(s) => s,
            None => return Err(TasEditorError::NoProject),
        };
        let ghost before = session@;
        match session.select_branch(action.source_branch_id.as_str()) {
            Ok(()) => {},
            Err(e) => {
                self.session = Some(session);
                return Err(TasEditorError::Edit(e));
            },
        }
        let moved = session.set_cursor(action.cursor);
        if moved.is_err() {
            self.session = Some(session);
            return Err(TasEditorError::StaleBranch);
        }
        self.session = Some(session);
        self.execution_preview = None;
        self.timeline_selection.collapse_to_cursor(action.cursor, frame_count);
        self.timeline_follow_selection = true;
        self.reset_active_branch_name();
        let mut message = string_of("Selected diff source branch ");
        push_str(&mut message, action.source_branch_id.as_str());
        push_str(&mut message, " at cursor ");
        push_decimal(&mut message, action.cursor);
        Ok(message)
    }
}

/// The tabs of the inspector, in navigation order.
#[derive(Clone, Copy, Debug, PartialEq, Eq, Structural)]
pub enum TasInspectorTab {
    Branches,
    Markers,
    Tools,
}

impl TasInspectorTab {
    pub fn label(self) -> (r: &'static str)
        ensures
            r == match self {
                TasInspectorTab::Branches => "Branches",
                TasInspectorTab::Markers => "Markers",
                TasInspectorTab::Tools => "Tools",
            },
    {
        match self {
            TasInspectorTab::Branches => "Branches",
            TasInspectorTab::Markers => "Markers",
            TasInspectorTab::Tools => "Tools",
        }
    }

    /// The tabs in the order both layouts show them.
    pub fn all() -> (r: Vec<TasInspectorTab>)
        ensures
            r@ == seq![TasInspectorTab::Branches, TasInspectorTab::Markers, TasInspectorTab::Tools],
    {
        let mut r = Vec::new();
        r.push(TasInspectorTab::Branches);
        r.push(TasInspectorTab::Markers);
        r.push(TasInspectorTab::Tools);
        proof {
            assert(r@ =~= seq![TasInspectorTab::Branches, TasInspectorTab::Markers, TasInspectorTab::Tools]);
        }
        r
    }
}

impl Default for TasInspectorTab {
    fn default() -> (r: Self)
        ensures
            r == TasInspectorTab::Branches,
    {
        TasInspectorTab::Branches
    }
}

} // verus!
