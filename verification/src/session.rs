//! An editing session over one project: the selected branch and cursor, the
//! edits, and a bounded undo/redo history of whole-session snapshots.
use vstd::prelude::*;

use crate::input::{TasDigest, TasInputFrame, neutral_frame};
use crate::limits::{MAX_PROJECT_FRAMES, MAX_UNDO_HISTORY};
use crate::pattern::{TasInputPattern, copy_frames, frames_eq};
use crate::project::{
    AnnotationModel, AssetModel, BranchModel, MarkerModel, OriginModel, ProjectModel, TasAnnotation, TasAsset,
    TasBranch, TasBranchOrigin, TasMarker, TasProject, annotations_acceptable, annotations_eq,
    annotations_view, assets_view, clone_assets, in_subtree,
    branch_index_of, branches_view, markers_acceptable, markers_eq, markers_view, spec_valid_id,
    unique_branch_ids, valid_id,
};
use crate::live::TasLiveRecordingMode;
use crate::replay::{ReplayEvent, ReplayEventModel, canonical_order, canonicalize_events, clone_events, events_eq, events_view};
use crate::timeline_edit::{
    cursor_after_delete, delete_frames, events_after_delete, events_after_insert,
    frames_after_delete, frames_after_insert, frames_with_inserted, insert_frame,
    insert_neutral_frames, insert_shift_fits,
    shift_events_for_delete, shift_events_for_insert,
};
use crate::text::{clone_string, spec_trim, str_eq, string_eq, string_of, trim};

verus! {

/// Why an edit or a history step was refused.
#[derive(Clone, Copy, Debug, PartialEq, Eq, Structural)]
pub enum TasEditError {
    UnknownBranch,
    OutsideBranch,
    InvalidCount,
    FrameLimit,
    InvalidBranchId,
    DuplicateBranchId,
    BlankName,
    RootBranch,
    ActiveBranchFamily,
    InvalidMarker,
    InvalidAnnotation,
    InvalidEvents,
    GenerationExhausted,
    NoAutosave,
    HistoryGroupActive,
    HistoryGroupInactive,
}

impl TasEditError {
    /// A sentence for the user.
    pub open spec fn message_text(&self) -> Seq<char> {
        match self {
            TasEditError::UnknownBranch => "the TAS branch does not exist"@,
            TasEditError::OutsideBranch => "the edit lies outside the TAS branch"@,
            TasEditError::InvalidCount => "the frame count must be positive"@,
            TasEditError::FrameLimit => "the TAS branch would exceed the project frame limit"@,
            TasEditError::InvalidBranchId => "TAS branch ids use letters, digits, '-', '_' and '.'"@,
            TasEditError::DuplicateBranchId => "a TAS branch with that id already exists"@,
            TasEditError::BlankName => "TAS branch names cannot be blank"@,
            TasEditError::RootBranch => "the root TAS branch cannot be deleted"@,
            TasEditError::ActiveBranchFamily => "switch outside this branch family before deleting it"@,
            TasEditError::InvalidMarker => "the TAS marker is invalid"@,
            TasEditError::InvalidAnnotation => "the TAS annotation is invalid"@,
            TasEditError::InvalidEvents => "the TAS events are invalid"@,
            TasEditError::GenerationExhausted => "the TAS edit generation is exhausted"@,
            TasEditError::NoAutosave => "no TAS autosave is available"@,
            TasEditError::HistoryGroupActive => "a live recording history group is already active"@,
            TasEditError::HistoryGroupInactive => "no live recording history group is active"@,
        }
    }

    pub fn message(&self) -> (r: &'static str)
        ensures
            r@ == self.message_text(),
    {
        match self {
            TasEditError::UnknownBranch => "the TAS branch does not exist",
            TasEditError::OutsideBranch => "the edit lies outside the TAS branch",
            TasEditError::InvalidCount => "the frame count must be positive",
            TasEditError::FrameLimit => "the TAS branch would exceed the project frame limit",
            TasEditError::InvalidBranchId => "TAS branch ids use letters, digits, '-', '_' and '.'",
            TasEditError::DuplicateBranchId => "a TAS branch with that id already exists",
            TasEditError::BlankName => "TAS branch names cannot be blank",
            TasEditError::RootBranch => "the root TAS branch cannot be deleted",
            TasEditError::ActiveBranchFamily => "switch outside this branch family before deleting it",
            TasEditError::InvalidMarker => "the TAS marker is invalid",
            TasEditError::InvalidAnnotation => "the TAS annotation is invalid",
            TasEditError::InvalidEvents => "the TAS events are invalid",
            TasEditError::GenerationExhausted => "the TAS edit generation is exhausted",
            TasEditError::NoAutosave => "no TAS autosave is available",
            TasEditError::HistoryGroupActive => "a live recording history group is already active",
            TasEditError::HistoryGroupInactive => "no live recording history group is active",
        }
    }
}

/// What an accepted edit did.
#[derive(Clone, Copy, Debug, PartialEq, Eq, Structural)]
pub struct TasEditOutcome {
    /// Whether the project changed (and a history entry was recorded).
    pub changed: bool,
}

/// Where the session's project was last loaded from.
#[derive(Clone, Copy, Debug, PartialEq, Eq, Structural)]
pub enum TasEditorSessionSource {
    Manual,
    Autosave,
}

/// The editable state that undo and redo restore.
#[derive(Debug)]
pub struct TasSessionSnapshot {
    pub project: TasProject,
    pub selected: usize,
    pub cursor: u64,
}

pub struct SnapshotModel {
    pub project: ProjectModel,
    pub selected: int,
    pub cursor: u64,
}

impl View for TasSessionSnapshot {
    type V = SnapshotModel;

    open spec fn view(&self) -> SnapshotModel {
        SnapshotModel { project: self.project@, selected: self.selected as int, cursor: self.cursor }
    }
}

pub open spec fn snapshots_view(s: Seq<TasSessionSnapshot>) -> Seq<SnapshotModel> {
    s.map_values(|x: TasSessionSnapshot| x@)
}

/// A frame count of the selected branch of a snapshot.
pub open spec fn selected_frames(s: SnapshotModel) -> Seq<TasInputFrame> {
    s.project.branches[s.selected].frames
}

/// Every generation and branch revision of the project lies below `next`.
pub open spec fn generations_below(p: ProjectModel, next: u64) -> bool {
    &&& p.edit_generation < next
    &&& forall|i: int| 0 <= i < p.branches.len() ==> (#[trigger] p.branches[i]).revision < next
}

/// A snapshot that a session can stand in.
pub open spec fn snapshot_ok(s: SnapshotModel, next: u64) -> bool {
    &&& s.project.wf()
    &&& 0 <= s.selected < s.project.branches.len()
    &&& s.cursor <= selected_frames(s).len()
    &&& generations_below(s.project, next)
}

/// `history` with `entry` appended, dropping the oldest entry when the history is full.
pub open spec fn push_bounded(history: Seq<SnapshotModel>, entry: SnapshotModel) -> Seq<SnapshotModel> {
    if history.len() >= MAX_UNDO_HISTORY {
        history.skip(history.len() - MAX_UNDO_HISTORY + 1).push(entry)
    } else {
        history.push(entry)
    }
}

/// The restorable state of a session before a recording draft.
#[derive(Debug)]
pub struct TasRecordingCheckpoint {
    pub snapshot: TasSessionSnapshot,
    pub undo: Vec<TasSessionSnapshot>,
    pub redo: Vec<TasSessionSnapshot>,
}

pub struct CheckpointModel {
    pub snapshot: SnapshotModel,
    pub undo: Seq<SnapshotModel>,
    pub redo: Seq<SnapshotModel>,
}

impl View for TasRecordingCheckpoint {
    type V = CheckpointModel;

    open spec fn view(&self) -> CheckpointModel {
        CheckpointModel {
            snapshot: self.snapshot@,
            undo: snapshots_view(self.undo@),
            redo: snapshots_view(self.redo@),
        }
    }
}

/// One frame of input prepared by live recording for the cursor of a branch.
#[derive(Debug)]
pub struct TasPreparedLiveFrame {
    pub branch_id: String,
    pub cursor: u64,
    pub input: TasInputFrame,
    pub mode: TasLiveRecordingMode,
}

/// One editing session.
#[derive(Debug)]
pub struct TasEditorSession {
    project: TasProject,
    selected: usize,
    cursor: u64,
    undo: Vec<TasSessionSnapshot>,
    redo: Vec<TasSessionSnapshot>,
    next_generation: u64,
    saved_generation: u64,
    autosave: Option<TasProject>,
    source: TasEditorSessionSource,
    manual_path: String,
    history_group: Option<bool>,
}

pub struct SessionModel {
    pub current: SnapshotModel,
    pub undo: Seq<SnapshotModel>,
    pub redo: Seq<SnapshotModel>,
    pub next_generation: u64,
    pub saved_generation: u64,
    pub autosave: Option<ProjectModel>,
    pub source: TasEditorSessionSource,
    pub manual_path: Seq<char>,
    /// `Some(recorded)` while a live recording history group is open;
    /// `recorded` tells whether the group already holds its history entry.
    pub history_group: Option<bool>,
}

pub open spec fn opt_project_view(p: Option<TasProject>) -> Option<ProjectModel> {
    match p {
        Some(q) => Some(q@),
        None => None,
    }
}

impl View for TasEditorSession {
    type V = SessionModel;

    closed spec fn view(&self) -> SessionModel {
        SessionModel {
            current: SnapshotModel {
                project: self.project@,
                selected: self.selected as int,
                cursor: self.cursor,
            },
            undo: snapshots_view(self.undo@),
            redo: snapshots_view(self.redo@),
            next_generation: self.next_generation,
            saved_generation: self.saved_generation,
            autosave: opt_project_view(self.autosave),
            source: self.source,
            manual_path: self.manual_path@,
            history_group: self.history_group,
        }
    }
}

impl SessionModel {
    /// The session invariant.
    pub open spec fn wf(self) -> bool {
        &&& snapshot_ok(self.current, self.next_generation)
        &&& forall|k: int| 0 <= k < self.undo.len() ==> snapshot_ok(#[trigger] self.undo[k], self.next_generation)
        &&& forall|k: int| 0 <= k < self.redo.len() ==> snapshot_ok(#[trigger] self.redo[k], self.next_generation)
        &&& self.undo.len() + self.redo.len() <= MAX_UNDO_HISTORY
        &&& self.saved_generation < self.next_generation
        &&& match self.autosave {
            Some(p) => p.wf() && generations_below(p, self.next_generation),
            None => true,
        }
    }

    pub open spec fn project(self) -> ProjectModel {
        self.current.project
    }

    pub open spec fn branch(self) -> BranchModel {
        self.current.project.branches[self.current.selected]
    }

    pub open spec fn frames(self) -> Seq<TasInputFrame> {
        self.branch().frames
    }

    pub open spec fn cursor(self) -> u64 {
        self.current.cursor
    }

    pub open spec fn is_dirty(self) -> bool {
        self.current.project.edit_generation != self.saved_generation
    }

    /// `new` is `self` after a recorded edit that produced `snapshot`.
    pub open spec fn committed(self, new: SessionModel, snapshot: SnapshotModel) -> bool {
        &&& new.current == snapshot
        &&& new.undo == push_bounded(self.undo, self.current)
        &&& new.redo.len() == 0
        &&& new.next_generation == self.next_generation + 1
        &&& snapshot.project.edit_generation == self.next_generation
        &&& new.saved_generation == self.saved_generation
        &&& new.autosave == self.autosave
        &&& new.source == self.source
        &&& new.manual_path == self.manual_path
        &&& new.history_group == self.history_group
    }

    /// `new` is `self` after one undo step.
    pub open spec fn undone(self, new: SessionModel) -> bool {
        &&& self.undo.len() > 0
        &&& new == SessionModel {
            current: self.undo.last(),
            undo: self.undo.drop_last(),
            redo: self.redo.push(self.current),
            ..self
        }
    }

    /// `new` is `self` after one redo step.
    pub open spec fn redone(self, new: SessionModel) -> bool {
        &&& self.redo.len() > 0
        &&& new == SessionModel {
            current: self.redo.last(),
            redo: self.redo.drop_last(),
            undo: self.undo.push(self.current),
            ..self
        }
    }

    /// `new` is `self` with only the current selection moved.
    pub open spec fn moved_to(self, new: SessionModel, selected: int, cursor: u64) -> bool {
        new == SessionModel { current: SnapshotModel { selected, cursor, ..self.current }, ..self }
    }
}

/// The project with branch `i` holding `frames` and both stamped with `generation`.
pub open spec fn with_branch_frames(p: ProjectModel, i: int, frames: Seq<TasInputFrame>, generation: u64) -> ProjectModel {
    ProjectModel {
        branches: p.branches.update(i, BranchModel { frames, revision: generation, ..p.branches[i] }),
        edit_generation: generation,
        rerecord_count: crate::project::bumped(p.rerecord_count),
        ..p
    }
}

/// `frames` with `length` frames from `start` set to `input`.
pub open spec fn fill_range(frames: Seq<TasInputFrame>, start: int, length: int, input: TasInputFrame) -> Seq<TasInputFrame> {
    Seq::new(frames.len(), |k: int| if start <= k < start + length { input } else { frames[k] })
}

/// `frames` with the frames from `start` replaced by `pattern`.
pub open spec fn splice_pattern(frames: Seq<TasInputFrame>, start: int, pattern: Seq<TasInputFrame>) -> Seq<TasInputFrame> {
    Seq::new(frames.len(), |k: int| if start <= k < start + pattern.len() { pattern[k - start] } else { frames[k] })
}

/// Why inserting `count` neutral frames at `at` is refused, if it is.
pub open spec fn spec_insert_refusal(s: SessionModel, at: u64, count: u64) -> Option<TasEditError> {
    let frames = s.frames();
    if count == 0 {
        Some(TasEditError::InvalidCount)
    } else if at > frames.len() {
        Some(TasEditError::OutsideBranch)
    } else if frames.len() + count > MAX_PROJECT_FRAMES || !insert_shift_fits(s.branch().events, at, count) {
        Some(TasEditError::FrameLimit)
    } else if s.next_generation == u64::MAX {
        Some(TasEditError::GenerationExhausted)
    } else {
        None
    }
}

/// A copy of a snapshot list.
pub fn clone_snapshots(s: &Vec<TasSessionSnapshot>) -> (r: Vec<TasSessionSnapshot>)
    ensures
        snapshots_view(r@) == snapshots_view(s@),
{
    let mut out: Vec<TasSessionSnapshot> = Vec::new();
    let mut i: usize = 0;
    while i < s.len()
        invariant
            0 <= i <= s@.len(),
            out@.len() == i,
            forall|k: int| 0 <= k < i ==> (#[trigger] out@[k])@ == s@[k]@,
        decreases s@.len() - i,
    {
        out.push(s[i].clone_snapshot());
        i += 1;
    }
    proof {
        assert(snapshots_view(out@) =~= snapshots_view(s@));
    }
    out
}

impl TasSessionSnapshot {
    pub fn clone_snapshot(&self) -> (r: Self)
        ensures
            r@ == self@,
    {
        TasSessionSnapshot {
            project: self.project.clone_project(),
            selected: self.selected,
            cursor: self.cursor,
        }
    }
}

impl TasEditorSession {
    /// A session over `project`, loaded from `manual_path`, on its first branch at frame 0.
    pub fn open(project: TasProject, manual_path: &str) -> (r: Result<Self, TasEditError>)
        requires
            project@.wf(),
        ensures
            match r {
                Ok(s) => generations_below(project@, u64::MAX) && s@.wf() && s@.current == (SnapshotModel {
                    project: project@,
                    selected: 0,
                    cursor: 0,
                }) && s@.undo.len() == 0 && s@.redo.len() == 0 && !s@.is_dirty()
                    && s@.source == TasEditorSessionSource::Manual && s@.manual_path == manual_path@
                    && s@.autosave is None && s@.history_group is None,
                Err(e) => e == TasEditError::GenerationExhausted && !generations_below(project@, u64::MAX),
            },
    {
        let mut next = project.edit_generation;
        let mut i: usize = 0;
        while i < project.branches.len()
            invariant
                0 <= i <= project@.branches.len(),
                project@.edit_generation <= next,
                forall|k: int| 0 <= k < i ==> (#[trigger] project@.branches[k]).revision <= next,
                next == project@.edit_generation || exists|k: int| 0 <= k < i && (#[trigger] project@.branches[k]).revision == next,
            decreases project@.branches.len() - i,
        {
            proof {
                assert(project@.branches[i as int] == project.branches@[i as int]@);
            }
            if project.branches[i].revision > next {
                next = project.branches[i].revision;
            }
            i += 1;
        }
        if next == u64::MAX {
            return Err(TasEditError::GenerationExhausted);
        }
        let saved = project.edit_generation;
        let s = TasEditorSession {
            project,
            selected: 0,
            cursor: 0,
            undo: Vec::new(),
            redo: Vec::new(),
            next_generation: next + 1,
            saved_generation: saved,
            autosave: None,
            source: TasEditorSessionSource::Manual,
            manual_path: manual_path.to_owned(),
            history_group: None,
        };
        proof {
            assert(s@.undo =~= Seq::<SnapshotModel>::empty());
            assert(s@.redo =~= Seq::<SnapshotModel>::empty());
        }
        Ok(s)
    }

    pub fn project(&self) -> (r: &TasProject)
        ensures
            r@ == self@.current.project,
    {
        &self.project
    }

    pub fn cursor(&self) -> (r: u64)
        ensures
            r == self@.current.cursor,
    {
        self.cursor
    }

    pub fn selected_index(&self) -> (r: usize)
        ensures
            r == self@.current.selected,
    {
        self.selected
    }

    pub fn selected_branch(&self) -> (r: &TasBranch)
        requires
            self@.wf(),
        ensures
            r@ == self@.branch(),
    {
        proof {
            assert(self@.current.project.branches[self.selected as int] == self.project.branches@[self.selected as int]@);
        }
        &self.project.branches[self.selected]
    }

    pub fn selected_branch_id(&self) -> (r: &str)
        requires
            self@.wf(),
        ensures
            r@ == self@.branch().id,
    {
        self.selected_branch().id()
    }

    /// Frames of the selected branch.
    pub fn frame_count(&self) -> (r: u64)
        requires
            self@.wf(),
        ensures
            r == self@.frames().len(),
    {
        self.selected_branch().frame_count()
    }

    /// Witness of the project content.
    pub fn project_content_digest(&self) -> (r: TasDigest)
        ensures
            r == TasDigest(self@.current.project.edit_generation),
    {
        TasDigest(self.project.edit_generation)
    }

    pub fn manual_path(&self) -> (r: &str)
        ensures
            r@ == self@.manual_path,
    {
        self.manual_path.as_str()
    }

    pub fn source(&self) -> (r: TasEditorSessionSource)
        ensures
            r == self@.source,
    {
        self.source
    }

    pub fn can_undo(&self) -> (r: bool)
        ensures
            r == (self@.undo.len() > 0),
    {
        self.undo.len() > 0
    }

    pub fn can_redo(&self) -> (r: bool)
        ensures
            r == (self@.redo.len() > 0),
    {
        self.redo.len() > 0
    }

    pub fn undo_count(&self) -> (r: usize)
        ensures
            r == self@.undo.len(),
    {
        self.undo.len()
    }

    pub fn redo_count(&self) -> (r: usize)
        ensures
            r == self@.redo.len(),
    {
        self.redo.len()
    }

    /// Whether the project differs from what was last saved.
    pub fn is_dirty(&self) -> (r: bool)
        ensures
            r == self@.is_dirty(),
    {
        self.project.edit_generation != self.saved_generation
    }

    /// The snapshot of the current editable state.
    fn current_snapshot(&self) -> (r: TasSessionSnapshot)
        ensures
            r@ == self@.current,
    {
        TasSessionSnapshot {
            project: self.project.clone_project(),
            selected: self.selected,
            cursor: self.cursor,
        }
    }

    /// Moves the cursor to boundary `cursor` of the selected branch.
    pub fn set_cursor(&mut self, cursor: u64) -> (r: Result<(), TasEditError>)
        requires
            old(self)@.wf(),
        ensures
            final(self)@.wf(),
            match r {
                Ok(()) => cursor <= old(self)@.frames().len()
                    && old(self)@.moved_to(final(self)@, old(self)@.current.selected, cursor),
                Err(e) => e == TasEditError::OutsideBranch && cursor > old(self)@.frames().len()
                    && final(self)@ == old(self)@,
            },
    {
        if cursor > self.frame_count() {
            return Err(TasEditError::OutsideBranch);
        }
        self.cursor = cursor;
        Ok(())
    }

    /// Selects the branch called `id`; the cursor is kept where the branch is long enough.
    pub fn select_branch(&mut self, id: &str) -> (r: Result<(), TasEditError>)
        requires
            old(self)@.wf(),
        ensures
            final(self)@.wf(),
            match r {
                Ok(()) => {
                    let i = branch_index_of(old(self)@.current.project.branches, id@).unwrap();
                    &&& old(self)@.current.project.has_branch(id@)
                    &&& old(self)@.moved_to(
                        final(self)@,
                        i,
                        if old(self)@.cursor() <= old(self)@.current.project.branches[i].frames.len() {
                            old(self)@.cursor()
                        } else {
                            old(self)@.current.project.branches[i].frames.len() as u64
                        },
                    )
                },
                Err(e) => e == TasEditError::UnknownBranch && !old(self)@.current.project.has_branch(id@)
                    && final(self)@ == old(self)@,
            },
    {
        match self.project.branch_index(id) {
            None => Err(TasEditError::UnknownBranch),
            Some(i) => {
                proof {
                    assert(self@.current.project.branches[i as int] == self.project.branches@[i as int]@);
                }
                let count = self.project.branches[i].frame_count();
                self.selected = i;
                if self.cursor > count {
                    self.cursor = count;
                }
                Ok(())
            },
        }
    }

    /// Records the current state in the history and installs `project` as the
    /// result of an edit, with `selected` and `cursor`.
    fn commit(&mut self, project: TasProject, selected: usize, cursor: u64)
        requires
            old(self)@.wf(),
            old(self)@.next_generation < u64::MAX,
            snapshot_ok(SnapshotModel { project: project@, selected: selected as int, cursor }, (old(self)@.next_generation + 1) as u64),
            project@.edit_generation == old(self)@.next_generation,
        ensures
            final(self)@.wf(),
            old(self)@.committed(final(self)@, SnapshotModel { project: project@, selected: selected as int, cursor }),
    {
        let ghost before = self@;
        let mut installed = project;
        std::mem::swap(&mut self.project, &mut installed);
        let previous = TasSessionSnapshot { project: installed, selected: self.selected, cursor: self.cursor };
        self.selected = selected;
        self.cursor = cursor;
        if self.undo.len() >= MAX_UNDO_HISTORY as usize {
            self.undo.remove(0);
        }
        self.undo.push(previous);
        self.redo = Vec::new();
        self.next_generation = self.next_generation + 1;
        proof {
            assert(snapshots_view(self.undo@) =~= push_bounded(before.undo, before.current));
            assert(self@.redo =~= Seq::<SnapshotModel>::empty());
            assert forall|k: int| 0 <= k < self@.undo.len() implies snapshot_ok(#[trigger] self@.undo[k], self@.next_generation) by {
                if before.undo.len() >= MAX_UNDO_HISTORY {
                    if k < self@.undo.len() - 1 {
                        assert(self@.undo[k] == before.undo[k + 1]);
                    }
                } else if k < self@.undo.len() - 1 {
                    assert(self@.undo[k] == before.undo[k]);
                }
            }
        }
    }

    /// Steps back to the state before the latest recorded edit; `false` when
    /// there is none.
    pub fn undo(&mut self) -> (r: bool)
        requires
            old(self)@.wf(),
        ensures
            final(self)@.wf(),
            r == (old(self)@.undo.len() > 0),
            r ==> old(self)@.undone(final(self)@),
            !r ==> final(self)@ == old(self)@,
    {
        let ghost before = self@;
        match self.undo.pop() {
            None => false,
            Some(entry) => {
                let mut installed = entry.project;
                std::mem::swap(&mut self.project, &mut installed);
                let previous = TasSessionSnapshot { project: installed, selected: self.selected, cursor: self.cursor };
                self.selected = entry.selected;
                self.cursor = entry.cursor;
                self.redo.push(previous);
                proof {
                    assert(self@.undo =~= before.undo.drop_last());
                    assert(self@.redo =~= before.redo.push(before.current));
                    assert forall|k: int| 0 <= k < self@.undo.len() implies snapshot_ok(#[trigger] self@.undo[k], self@.next_generation) by {
                        assert(self@.undo[k] == before.undo[k]);
                    }
                    assert forall|k: int| 0 <= k < self@.redo.len() implies snapshot_ok(#[trigger] self@.redo[k], self@.next_generation) by {
                        if k < before.redo.len() {
                            assert(self@.redo[k] == before.redo[k]);
                        }
                    }
                    assert(before.undo[before.undo.len() - 1] == before.undo.last());
                }
                true
            },
        }
    }

    /// Re-applies the latest undone edit; `false` when there is none.
    pub fn redo(&mut self) -> (r: bool)
        requires
            old(self)@.wf(),
        ensures
            final(self)@.wf(),
            r == (old(self)@.redo.len() > 0),
            r ==> old(self)@.redone(final(self)@),
            !r ==> final(self)@ == old(self)@,
    {
        let ghost before = self@;
        match self.redo.pop() {
            None => false,
            Some(entry) => {
                let mut installed = entry.project;
                std::mem::swap(&mut self.project, &mut installed);
                let previous = TasSessionSnapshot { project: installed, selected: self.selected, cursor: self.cursor };
                self.selected = entry.selected;
                self.cursor = entry.cursor;
                self.undo.push(previous);
                proof {
                    assert(self@.redo =~= before.redo.drop_last());
                    assert(self@.undo =~= before.undo.push(before.current));
                    assert forall|k: int| 0 <= k < self@.redo.len() implies snapshot_ok(#[trigger] self@.redo[k], self@.next_generation) by {
                        assert(self@.redo[k] == before.redo[k]);
                    }
                    assert forall|k: int| 0 <= k < self@.undo.len() implies snapshot_ok(#[trigger] self@.undo[k], self@.next_generation) by {
                        if k < before.undo.len() {
                            assert(self@.undo[k] == before.undo[k]);
                        }
                    }
                    assert(before.redo[before.redo.len() - 1] == before.redo.last());
                }
                true
            },
        }
    }

    /// A copy of the project whose branch `i` holds `frames`, stamped with `generation`.
    fn project_with_frames(&self, i: usize, frames: Vec<TasInputFrame>, generation: u64) -> (r: TasProject)
        requires
            i < self@.current.project.branches.len(),
        ensures
            r@ == with_branch_frames(self@.current.project, i as int, frames@, generation),
    {
        let mut p = self.project.clone_project();
        let b = &self.project.branches[i];
        let nb = TasBranch {
            id: clone_string(&b.id),
            name: clone_string(&b.name),
            parent: match &b.parent {
                Some(o) => Some(o.clone_origin()),
                None => None,
            },
            frames,
            events: clone_events(&b.events),
            revision: generation,
        };
        p.branches.set(i, nb);
        p.edit_generation = generation;
        p.rerecord_count = crate::project::bump(p.rerecord_count);
        proof {
            assert(self@.current.project.branches[i as int] == self.project.branches@[i as int]@);
            assert(branches_view(p.branches@) =~= with_branch_frames(self@.current.project, i as int, frames@, generation).branches);
        }
        p
    }

    /// Installs `frames` in branch `i` as a recorded edit, when they differ from
    /// what the branch holds.
    fn commit_frames(&mut self, i: usize, frames: Vec<TasInputFrame>) -> (r: Result<TasEditOutcome, TasEditError>)
        requires
            old(self)@.wf(),
            i < old(self)@.current.project.branches.len(),
            frames@.len() <= MAX_PROJECT_FRAMES,
            i == old(self)@.current.selected ==> old(self)@.cursor() <= frames@.len(),
        ensures
            final(self)@.wf(),
            frame_commit_result(old(self)@, final(self)@, i as int, frames@, r),
    {
        let ghost old_frames = self@.current.project.branches[i as int].frames;
        proof {
            assert(self@.current.project.branches[i as int] == self.project.branches@[i as int]@);
        }
        if frames_eq(&frames, &self.project.branches[i].frames) {
            return Ok(TasEditOutcome { changed: false });
        }
        if self.next_generation == u64::MAX {
            return Err(TasEditError::GenerationExhausted);
        }
        let generation = self.next_generation;
        let ghost fv = frames@;
        let project = self.project_with_frames(i, frames, generation);
        proof {
            let old_p = self@.current.project;
            let new_p = project@;
            assert forall|a: int, b: int| 0 <= a < new_p.branches.len() && 0 <= b < new_p.branches.len() && a != b
                implies #[trigger] new_p.branches[a].id != #[trigger] new_p.branches[b].id by {
                assert(new_p.branches[a].id == old_p.branches[a].id);
                assert(new_p.branches[b].id == old_p.branches[b].id);
            }
            assert forall|k: int| 0 <= k < new_p.branches.len() implies (#[trigger] new_p.branches[k]).frames.len() <= MAX_PROJECT_FRAMES by {
                if k != i {
                    assert(new_p.branches[k] == old_p.branches[k]);
                }
            }
            assert forall|k: int| 0 <= k < new_p.branches.len() implies (#[trigger] new_p.branches[k]).revision < generation + 1 by {
                if k != i {
                    assert(new_p.branches[k] == old_p.branches[k]);
                }
            }
            if self.selected != i {
                assert(new_p.branches[self.selected as int] == old_p.branches[self.selected as int]);
            }
        }
        let selected = self.selected;
        let cursor = self.cursor;
        self.commit(project, selected, cursor);
        Ok(TasEditOutcome { changed: true })
    }

    /// Sets `length` frames of branch `branch_id` from `start` to `input`.
    pub fn set_input_range(&mut self, branch_id: &str, start: u64, length: u64, input: TasInputFrame) -> (r: Result<TasEditOutcome, TasEditError>)
        requires
            old(self)@.wf(),
        ensures
            final(self)@.wf(),
            match branch_index_of(old(self)@.current.project.branches, branch_id@) {
                None => r == Err::<TasEditOutcome, TasEditError>(TasEditError::UnknownBranch) && final(self)@ == old(self)@,
                Some(i) => {
                    let frames = old(self)@.current.project.branches[i].frames;
                    if start + length > frames.len() {
                        r == Err::<TasEditOutcome, TasEditError>(TasEditError::OutsideBranch) && final(self)@ == old(self)@
                    } else {
                        frame_commit_result(old(self)@, final(self)@, i, fill_range(frames, start as int, length as int, input), r)
                    }
                },
            },
    {
        let i = match self.project.branch_index(branch_id) {
            Some(i) => i,
            None => return Err(TasEditError::UnknownBranch),
        };
        proof {
            assert(self@.current.project.branches[i as int] == self.project.branches@[i as int]@);
        }
        let count = self.project.branches[i].frame_count();
        if start > count || length > count - start {
            return Err(TasEditError::OutsideBranch);
        }
        let mut frames: Vec<TasInputFrame> = Vec::new();
        let mut k: usize = 0;
        let n = self.project.branches[i].frames.len();
        let ghost target = fill_range(self.project.branches@[i as int].frames@, start as int, length as int, input);
        while k < n
            invariant
                i < self.project.branches@.len(),
                start + length <= n,
                n == self.project.branches@[i as int].frames@.len(),
                0 <= k <= n,
                target.len() == n,
                target == fill_range(self.project.branches@[i as int].frames@, start as int, length as int, input),
                frames@ == target.take(k as int),
            decreases n - k,
        {
            let f = if start <= k as u64 && (k as u64) < start + length {
                input
            } else {
                self.project.branches[i].frames[k]
            };
            frames.push(f);
            k += 1;
            proof {
                assert(frames@ =~= target.take(k as int));
            }
        }
        proof {
            assert(frames@ =~= target);
            assert(self@.current.project.wf());
            assert(self@.current.project.branches[i as int].frames.len() <= MAX_PROJECT_FRAMES);
        }
        self.commit_frames(i, frames)
    }

    /// Replaces the frames of branch `branch_id` from `start` by `pattern`.
    pub fn replace_input_pattern(&mut self, branch_id: &str, start: u64, pattern: &TasInputPattern) -> (r: Result<TasEditOutcome, TasEditError>)
        requires
            old(self)@.wf(),
        ensures
            final(self)@.wf(),
            match branch_index_of(old(self)@.current.project.branches, branch_id@) {
                None => r == Err::<TasEditOutcome, TasEditError>(TasEditError::UnknownBranch) && final(self)@ == old(self)@,
                Some(i) => {
                    let frames = old(self)@.current.project.branches[i].frames;
                    if start + pattern@.len() > frames.len() {
                        r == Err::<TasEditOutcome, TasEditError>(TasEditError::OutsideBranch) && final(self)@ == old(self)@
                    } else {
                        frame_commit_result(old(self)@, final(self)@, i, splice_pattern(frames, start as int, pattern@), r)
                    }
                },
            },
    {
        let i = match self.project.branch_index(branch_id) {
            Some(i) => i,
            None => return Err(TasEditError::UnknownBranch),
        };
        proof {
            assert(self@.current.project.branches[i as int] == self.project.branches@[i as int]@);
        }
        let count = self.project.branches[i].frames.len();
        let plen = pattern.frames.len();
        if start > count as u64 || plen as u64 > count as u64 - start {
            return Err(TasEditError::OutsideBranch);
        }
        let first = start as usize;
        let mut frames: Vec<TasInputFrame> = Vec::new();
        let mut k: usize = 0;
        let ghost target = splice_pattern(self.project.branches@[i as int].frames@, start as int, pattern@);
        while k < count
            invariant
                i < self.project.branches@.len(),
                count == self.project.branches@[i as int].frames@.len(),
                first == start,
                first + plen <= count,
                plen == pattern@.len(),
                0 <= k <= count,
                target.len() == count,
                target == splice_pattern(self.project.branches@[i as int].frames@, start as int, pattern@),
                frames@ == target.take(k as int),
            decreases count - k,
        {
            let f = if first <= k && k < first + plen {
                pattern.frames[k - first]
            } else {
                self.project.branches[i].frames[k]
            };
            frames.push(f);
            k += 1;
            proof {
                assert(frames@ =~= target.take(k as int));
            }
        }
        proof {
            assert(frames@ =~= target);
            assert(self@.current.project.branches[i as int].frames.len() <= MAX_PROJECT_FRAMES);
        }
        self.commit_frames(i, frames)
    }
    /// A copy of the project whose branch `i` holds `frames` and `events`, stamped with `generation`.
    fn project_with_content(&self, i: usize, frames: Vec<TasInputFrame>, events: Vec<ReplayEvent>, generation: u64) -> (r: TasProject)
        requires
            i < self@.current.project.branches.len(),
        ensures
            r@ == with_branch_content(self@.current.project, i as int, frames@, events_view(events@), generation),
    {
        let mut p = self.project.clone_project();
        let b = &self.project.branches[i];
        let nb = TasBranch {
            id: clone_string(&b.id),
            name: clone_string(&b.name),
            parent: match &b.parent {
                Some(o) => Some(o.clone_origin()),
                None => None,
            },
            frames,
            events,
            revision: generation,
        };
        p.branches.set(i, nb);
        p.edit_generation = generation;
        p.rerecord_count = crate::project::bump(p.rerecord_count);
        proof {
            assert(self@.current.project.branches[i as int] == self.project.branches@[i as int]@);
            assert(branches_view(p.branches@) =~= with_branch_content(self@.current.project, i as int, frames@, events_view(events@), generation).branches);
        }
        p
    }

    /// Installs new content for the selected branch and moves the cursor, as a recorded edit.
    fn commit_selected_content(&mut self, frames: Vec<TasInputFrame>, events: Vec<ReplayEvent>, cursor: u64) -> (r: Result<(), TasEditError>)
        requires
            old(self)@.wf(),
            frames@.len() <= MAX_PROJECT_FRAMES,
            cursor <= frames@.len(),
        ensures
            final(self)@.wf(),
            match r {
                Ok(()) => old(self)@.next_generation < u64::MAX && old(self)@.committed(
                    final(self)@,
                    SnapshotModel {
                        project: with_branch_content(old(self)@.current.project, old(self)@.current.selected, frames@, events_view(events@), old(self)@.next_generation),
                        cursor,
                        ..old(self)@.current
                    },
                ),
                Err(e) => e == TasEditError::GenerationExhausted && old(self)@.next_generation == u64::MAX && final(self)@ == old(self)@,
            },
    {
        if self.next_generation == u64::MAX {
            return Err(TasEditError::GenerationExhausted);
        }
        let generation = self.next_generation;
        let i = self.selected;
        let project = self.project_with_content(i, frames, events, generation);
        proof {
            let old_p = self@.current.project;
            let new_p = project@;
            assert forall|a: int, b: int| 0 <= a < new_p.branches.len() && 0 <= b < new_p.branches.len() && a != b
                implies #[trigger] new_p.branches[a].id != #[trigger] new_p.branches[b].id by {
                assert(new_p.branches[a].id == old_p.branches[a].id);
                assert(new_p.branches[b].id == old_p.branches[b].id);
            }
            assert forall|k: int| 0 <= k < new_p.branches.len() implies (#[trigger] new_p.branches[k]).frames.len() <= MAX_PROJECT_FRAMES by {
                if k != i {
                    assert(new_p.branches[k] == old_p.branches[k]);
                }
            }
            assert forall|k: int| 0 <= k < new_p.branches.len() implies (#[trigger] new_p.branches[k]).revision < generation + 1 by {
                if k != i {
                    assert(new_p.branches[k] == old_p.branches[k]);
                }
            }
        }
        self.commit(project, i, cursor);
        Ok(())
    }

    /// Inserts `count` neutral frames into the selected branch before frame
    /// `at`; events at or after `at` move back with them and the cursor stays.
    pub fn insert_neutral_frames(&mut self, at: u64, count: u64) -> (r: Result<(), TasEditError>)
        requires
            old(self)@.wf(),
        ensures
            final(self)@.wf(),
            ({
                let o = old(self)@;
                let frames = o.frames();
                let events = o.branch().events;
                match r {
                    Ok(()) => 0 < count && at <= frames.len() && frames.len() + count <= MAX_PROJECT_FRAMES
                        && insert_shift_fits(events, at, count)
                        && o.committed(final(self)@, SnapshotModel {
                            project: with_branch_content(o.current.project, o.current.selected,
                                frames_after_insert(frames, at as int, count as nat),
                                events_after_insert(events, at, count), o.next_generation),
                            ..o.current
                        }),
                    Err(e) => final(self)@ == o && match e {
                        TasEditError::InvalidCount => count == 0,
                        TasEditError::OutsideBranch => 0 < count && at > frames.len(),
                        TasEditError::FrameLimit => 0 < count && at <= frames.len()
                            && (frames.len() + count > MAX_PROJECT_FRAMES || !insert_shift_fits(events, at, count)),
                        TasEditError::GenerationExhausted => 0 < count && at <= frames.len()
                            && frames.len() + count <= MAX_PROJECT_FRAMES && insert_shift_fits(events, at, count)
                            && o.next_generation == u64::MAX,
                        _ => false,
                    },
                }
            }),
    {
        if count == 0 {
            return Err(TasEditError::InvalidCount);
        }
        let n = self.frame_count();
        if at > n {
            return Err(TasEditError::OutsideBranch);
        }
        proof {
            assert(self@.current.project.branches[self.selected as int] == self.project.branches@[self.selected as int]@);
            assert(n <= MAX_PROJECT_FRAMES);
        }
        if count > MAX_PROJECT_FRAMES - n {
            return Err(TasEditError::FrameLimit);
        }
        let events = match shift_events_for_insert(&self.project.branches[self.selected].events, at, count) {
            Some(e) => e,
            None => return Err(TasEditError::FrameLimit),
        };
        let frames = insert_neutral_frames(&self.project.branches[self.selected].frames, at as usize, count as usize);
        let cursor = self.cursor;
        self.commit_selected_content(frames, events, cursor)
    }

    /// Deletes `count` frames of the selected branch from `start`.
    pub fn delete_frames(&mut self, start: u64, count: u64) -> (r: Result<(), TasEditError>)
        requires
            old(self)@.wf(),
        ensures
            final(self)@.wf(),
            ({
                let o = old(self)@;
                let frames = o.frames();
                let events = o.branch().events;
                match r {
                    Ok(()) => 0 < count && start + count <= frames.len()
                        && o.committed(final(self)@, SnapshotModel {
                            project: with_branch_content(o.current.project, o.current.selected,
                                frames_after_delete(frames, start as int, count as int),
                                events_after_delete(events, start, count), o.next_generation),
                            cursor: cursor_after_delete(o.cursor(), start, count),
                            ..o.current
                        }),
                    Err(e) => final(self)@ == o && match e {
                        TasEditError::InvalidCount => count == 0,
                        TasEditError::OutsideBranch => 0 < count && start + count > frames.len(),
                        TasEditError::GenerationExhausted => 0 < count && start + count <= frames.len()
                            && o.next_generation == u64::MAX,
                        _ => false,
                    },
                }
            }),
    {
        if count == 0 {
            return Err(TasEditError::InvalidCount);
        }
        let n = self.frame_count();
        if start > n || count > n - start {
            return Err(TasEditError::OutsideBranch);
        }
        proof {
            assert(self@.current.project.branches[self.selected as int] == self.project.branches@[self.selected as int]@);
        }
        let events = shift_events_for_delete(&self.project.branches[self.selected].events, start, count);
        let frames = delete_frames(&self.project.branches[self.selected].frames, start as usize, count as usize);
        let cursor = if self.cursor <= start {
            self.cursor
        } else if self.cursor >= start + count {
            self.cursor - count
        } else {
            start
        };
        self.commit_selected_content(frames, events, cursor)
    }

    /// Creates branch `id` as a copy of the selected branch forked at the
    /// cursor, and selects it at the same cursor.
    pub fn fork_branch(&mut self, id: &str, name: &str) -> (r: Result<(), TasEditError>)
        requires
            old(self)@.wf(),
        ensures
            final(self)@.wf(),
            ({
                let o = old(self)@;
                let tname = spec_trim(name@);
                match r {
                    Ok(()) => spec_valid_id(id@) && !o.current.project.has_branch(id@) && tname.len() > 0
                        && o.current.project.branches.len() < usize::MAX
                        && o.committed(final(self)@, SnapshotModel {
                            project: forked_project(o.current.project, o.current.selected, o.cursor(), id@, tname, o.next_generation),
                            selected: o.current.project.branches.len() as int,
                            cursor: o.cursor(),
                        }),
                    Err(e) => final(self)@ == o && match e {
                        TasEditError::InvalidBranchId => !spec_valid_id(id@),
                        TasEditError::DuplicateBranchId => spec_valid_id(id@) && o.current.project.has_branch(id@),
                        TasEditError::BlankName => spec_valid_id(id@) && !o.current.project.has_branch(id@) && tname.len() == 0,
                        TasEditError::GenerationExhausted => spec_valid_id(id@) && !o.current.project.has_branch(id@)
                            && tname.len() > 0 && (o.next_generation == u64::MAX || o.current.project.branches.len() >= usize::MAX),
                        _ => false,
                    },
                }
            }),
    {
        if !valid_id(id) {
            return Err(TasEditError::InvalidBranchId);
        }
        if self.project.branch_index(id).is_some() {
            return Err(TasEditError::DuplicateBranchId);
        }
        let tname = trim(name);
        if tname.unicode_len() == 0 {
            return Err(TasEditError::BlankName);
        }
        if self.next_generation == u64::MAX || self.project.branches.len() == usize::MAX {
            return Err(TasEditError::GenerationExhausted);
        }
        let generation = self.next_generation;
        let sel = self.selected;
        proof {
            assert(self@.current.project.branches[sel as int] == self.project.branches@[sel as int]@);
        }
        let parent = &self.project.branches[sel];
        let child = TasBranch {
            id: string_of(id),
            name: tname,
            parent: Some(TasBranchOrigin { branch_id: clone_string(&parent.id), fork_cursor: self.cursor }),
            frames: copy_frames(&parent.frames),
            events: clone_events(&parent.events),
            revision: generation,
        };
        let mut project = self.project.clone_project();
        let ghost before = project@;
        project.branches.push(child);
        project.edit_generation = generation;
        let new_index = self.project.branches.len();
        proof {
            let o = self@;
            let np = project@;
            assert(branches_view(project.branches@) =~= before.branches.push(child@));
            assert(np == forked_project(o.current.project, o.current.selected, o.cursor(), id@, spec_trim(name@), generation));
            assert forall|a: int, b: int| 0 <= a < np.branches.len() && 0 <= b < np.branches.len() && a != b
                implies #[trigger] np.branches[a].id != #[trigger] np.branches[b].id by {
                if a < before.branches.len() && b < before.branches.len() {
                    assert(np.branches[a] == before.branches[a]);
                    assert(np.branches[b] == before.branches[b]);
                } else if a < before.branches.len() {
                    assert(np.branches[a] == before.branches[a]);
                    assert(o.current.project.branches[a].id != id@);
                } else {
                    assert(np.branches[b] == before.branches[b]);
                    assert(o.current.project.branches[b].id != id@);
                }
            }
            assert forall|k: int| 0 <= k < np.branches.len() implies (#[trigger] np.branches[k]).frames.len() <= MAX_PROJECT_FRAMES by {
                if k < before.branches.len() {
                    assert(np.branches[k] == before.branches[k]);
                }
            }
            assert forall|k: int| 0 <= k < np.branches.len() implies (#[trigger] np.branches[k]).revision < generation + 1 by {
                if k < before.branches.len() {
                    assert(np.branches[k] == before.branches[k]);
                }
            }
            assert(np.branches[new_index as int].frames == o.frames());
        }
        let cursor = self.cursor;
        self.commit(project, new_index, cursor);
        Ok(())
    }

    /// Renames the selected branch to `name` without its surrounding white space.
    pub fn rename_selected_branch(&mut self, name: &str) -> (r: Result<TasEditOutcome, TasEditError>)
        requires
            old(self)@.wf(),
        ensures
            final(self)@.wf(),
            ({
                let o = old(self)@;
                let tname = spec_trim(name@);
                match r {
                    Ok(outcome) => tname.len() > 0 && if tname == o.branch().name {
                        !outcome.changed && final(self)@ == o
                    } else {
                        outcome.changed && o.committed(final(self)@, SnapshotModel {
                            project: renamed_project(o.current.project, o.current.selected, tname, o.next_generation),
                            ..o.current
                        })
                    },
                    Err(e) => final(self)@ == o && match e {
                        TasEditError::BlankName => tname.len() == 0,
                        TasEditError::GenerationExhausted => tname.len() > 0 && tname != o.branch().name
                            && o.next_generation == u64::MAX,
                        _ => false,
                    },
                }
            }),
    {
        let tname = trim(name);
        if tname.unicode_len() == 0 {
            return Err(TasEditError::BlankName);
        }
        let sel = self.selected;
        proof {
            assert(self@.current.project.branches[sel as int] == self.project.branches@[sel as int]@);
        }
        if string_eq(&tname, &self.project.branches[sel].name) {
            return Ok(TasEditOutcome { changed: false });
        }
        if self.next_generation == u64::MAX {
            return Err(TasEditError::GenerationExhausted);
        }
        let generation = self.next_generation;
        let b = &self.project.branches[sel];
        let nb = TasBranch {
            id: clone_string(&b.id),
            name: tname,
            parent: match &b.parent {
                Some(o) => Some(o.clone_origin()),
                None => None,
            },
            frames: copy_frames(&b.frames),
            events: clone_events(&b.events),
            revision: b.revision,
        };
        let mut project = self.project.clone_project();
        project.branches.set(sel, nb);
        project.edit_generation = generation;
        proof {
            let o = self@;
            let np = project@;
            assert(branches_view(project.branches@) =~= renamed_project(o.current.project, sel as int, spec_trim(name@), generation).branches);
            assert forall|a: int, b: int| 0 <= a < np.branches.len() && 0 <= b < np.branches.len() && a != b
                implies #[trigger] np.branches[a].id != #[trigger] np.branches[b].id by {
                assert(np.branches[a].id == o.current.project.branches[a].id);
                assert(np.branches[b].id == o.current.project.branches[b].id);
            }
            assert forall|k: int| 0 <= k < np.branches.len() implies (#[trigger] np.branches[k]).frames.len() <= MAX_PROJECT_FRAMES by {
                assert(np.branches[k].frames == o.current.project.branches[k].frames);
            }
            assert forall|k: int| 0 <= k < np.branches.len() implies (#[trigger] np.branches[k]).revision < generation + 1 by {
                assert(np.branches[k].revision == o.current.project.branches[k].revision);
            }
        }
        let cursor = self.cursor;
        self.commit(project, sel, cursor);
        Ok(TasEditOutcome { changed: true })
    }

    /// Starts a recording draft: a recorded edit appending one neutral row at
    /// the end of the selected branch, with the cursor on it. The returned
    /// checkpoint restores the session as it was before.
    pub fn begin_recording_draft(&mut self) -> (r: Result<TasRecordingCheckpoint, TasEditError>)
        requires
            old(self)@.wf(),
        ensures
            final(self)@.wf(),
            ({
                let o = old(self)@;
                match r {
                    Ok(cp) => o.frames().len() < MAX_PROJECT_FRAMES
                        && cp@ == (CheckpointModel { snapshot: o.current, undo: o.undo, redo: o.redo })
                        && checkpoint_ok(cp@, final(self)@.next_generation)
                        && o.committed(final(self)@, SnapshotModel {
                            project: with_branch_content(o.current.project, o.current.selected,
                                o.frames().push(neutral_frame()), o.branch().events, o.next_generation),
                            cursor: o.frames().len() as u64,
                            ..o.current
                        }),
                    Err(e) => final(self)@ == o && match e {
                        TasEditError::FrameLimit => o.frames().len() >= MAX_PROJECT_FRAMES,
                        TasEditError::GenerationExhausted => o.frames().len() < MAX_PROJECT_FRAMES && o.next_generation == u64::MAX,
                        _ => false,
                    },
                }
            }),
    {
        let n = self.frame_count();
        if n >= MAX_PROJECT_FRAMES {
            return Err(TasEditError::FrameLimit);
        }
        if self.next_generation == u64::MAX {
            return Err(TasEditError::GenerationExhausted);
        }
        let checkpoint = TasRecordingCheckpoint {
            snapshot: self.current_snapshot(),
            undo: clone_snapshots(&self.undo),
            redo: clone_snapshots(&self.redo),
        };
        let sel = self.selected;
        proof {
            assert(self@.current.project.branches[sel as int] == self.project.branches@[sel as int]@);
        }
        let mut frames = copy_frames(&self.project.branches[sel].frames);
        frames.push(TasInputFrame::neutral());
        let events = clone_events(&self.project.branches[sel].events);
        let ghost o = self@;
        let r = self.commit_selected_content(frames, events, n);
        match r {
            Ok(()) => {
                proof {
                    lemma_snapshot_ok_grows(o.current, o.next_generation, self@.next_generation);
                    assert forall|k: int| 0 <= k < o.undo.len() implies snapshot_ok(#[trigger] o.undo[k], self@.next_generation) by {
                        lemma_snapshot_ok_grows(o.undo[k], o.next_generation, self@.next_generation);
                    }
                    assert forall|k: int| 0 <= k < o.redo.len() implies snapshot_ok(#[trigger] o.redo[k], self@.next_generation) by {
                        lemma_snapshot_ok_grows(o.redo[k], o.next_generation, self@.next_generation);
                    }
                }
                Ok(checkpoint)
            },
            Err(e) => Err(e),
        }
    }

    /// Restores the session to a recording checkpoint.
    pub fn discard_recording_draft(&mut self, checkpoint: &TasRecordingCheckpoint)
        requires
            old(self)@.wf(),
            checkpoint_ok(checkpoint@, old(self)@.next_generation),
        ensures
            final(self)@.wf(),
            final(self)@ == (SessionModel {
                current: checkpoint@.snapshot,
                undo: checkpoint@.undo,
                redo: checkpoint@.redo,
                ..old(self)@
            }),
    {
        self.project = checkpoint.snapshot.project.clone_project();
        self.selected = checkpoint.snapshot.selected;
        self.cursor = checkpoint.snapshot.cursor;
        self.undo = clone_snapshots(&checkpoint.undo);
        self.redo = clone_snapshots(&checkpoint.redo);
    }

    /// Records that the current project was written to its manual file.
    pub fn mark_saved(&mut self)
        requires
            old(self)@.wf(),
        ensures
            final(self)@.wf(),
            final(self)@ == (SessionModel {
                saved_generation: old(self)@.current.project.edit_generation,
                source: TasEditorSessionSource::Manual,
                ..old(self)@
            }),
            !final(self)@.is_dirty(),
    {
        self.saved_generation = self.project.edit_generation;
        self.source = TasEditorSessionSource::Manual;
    }

    /// Removes the assets named `digest` as one recorded edit; `false` when
    /// the project holds none.
    pub fn remove_camera_asset(&mut self, digest: TasDigest) -> (r: Result<bool, TasEditError>)
        requires
            old(self)@.wf(),
        ensures
            final(self)@.wf(),
            ({
                let o = old(self)@;
                let a = o.current.project.assets;
                if !(exists|k: int| 0 <= k < a.len() && (#[trigger] a[k]).digest == digest) {
                    r == Ok::<bool, TasEditError>(false) && final(self)@ == o
                } else if o.next_generation == u64::MAX {
                    r == Err::<bool, TasEditError>(TasEditError::GenerationExhausted) && final(self)@ == o
                } else {
                    r == Ok::<bool, TasEditError>(true) && o.committed(final(self)@, SnapshotModel {
                        project: ProjectModel {
                            assets: kept_assets(a, digest, a.len() as int),
                            edit_generation: o.next_generation,
                            ..o.current.project
                        },
                        ..o.current
                    })
                }
            }),
    {
        let ghost av = self@.current.project.assets;
        let mut kept: Vec<TasAsset> = Vec::new();
        let mut found = false;
        let mut i: usize = 0;
        while i < self.project.assets.len()
            invariant
                0 <= i <= self.project.assets@.len(),
                av == assets_view(self.project.assets@),
                assets_view(kept@) == kept_assets(av, digest, i as int),
                found == exists|k: int| 0 <= k < i && (#[trigger] av[k]).digest == digest,
            decreases self.project.assets@.len() - i,
        {
            proof {
                assert(av[i as int] == self.project.assets@[i as int]@);
            }
            let asset = &self.project.assets[i];
            if asset.digest == digest {
                found = true;
            } else {
                let ghost before = kept@;
                kept.push(TasAsset { digest: asset.digest, bytes: crate::project::clone_bytes(&asset.bytes) });
                proof {
                    assert(assets_view(kept@) =~= assets_view(before).push(av[i as int]));
                }
            }
            i += 1;
        }
        if !found {
            return Ok(false);
        }
        if self.next_generation == u64::MAX {
            return Err(TasEditError::GenerationExhausted);
        }
        let mut project = self.project.clone_project();
        project.assets = kept;
        project.edit_generation = self.next_generation;
        let selected = self.selected;
        let cursor = self.cursor;
        proof {
            assert(project@.branches == self@.current.project.branches);
        }
        self.commit(project, selected, cursor);
        Ok(true)
    }

    /// Generation of the project held in the autosave slot.
    pub fn last_autosaved_generation(&self) -> (r: Option<u64>)
        ensures
            r == match self@.autosave {
                Some(p) => Some(p.edit_generation),
                None => None::<u64>,
            },
    {
        match &self.autosave {
            Some(p) => Some(p.edit_generation),
            None => None,
        }
    }

    /// Copies the project into the autosave slot unless the slot already holds
    /// this generation; returns the generation copied.
    pub fn autosave_if_changed(&mut self) -> (r: Option<u64>)
        requires
            old(self)@.wf(),
        ensures
            final(self)@.wf(),
            ({
                let o = old(self)@;
                let current = o.current.project;
                if o.autosave is Some && o.autosave.unwrap().edit_generation == current.edit_generation {
                    r is None && final(self)@ == o
                } else {
                    r == Some(current.edit_generation) && final(self)@ == (SessionModel { autosave: Some(current), ..o })
                }
            }),
    {
        let same = match &self.autosave {
            Some(p) => p.edit_generation == self.project.edit_generation,
            None => false,
        };
        if same {
            return None;
        }
        self.autosave = Some(self.project.clone_project());
        Some(self.project.edit_generation)
    }

    /// Replaces the editable state by the autosaved project, on its first
    /// branch at frame 0 with an empty history.
    pub fn recover_autosave(&mut self) -> (r: Result<(), TasEditError>)
        requires
            old(self)@.wf(),
        ensures
            final(self)@.wf(),
            ({
                let o = old(self)@;
                match o.autosave {
                    Some(p) => r is Ok && final(self)@ == (SessionModel {
                        current: SnapshotModel { project: p, selected: 0, cursor: 0 },
                        undo: Seq::empty(),
                        redo: Seq::empty(),
                        source: TasEditorSessionSource::Autosave,
                        ..o
                    }),
                    None => r == Err::<(), TasEditError>(TasEditError::NoAutosave) && final(self)@ == o,
                }
            }),
    {
        let project = match &self.autosave {
            Some(p) => p.clone_project(),
            None => return Err(TasEditError::NoAutosave),
        };
        self.project = project;
        self.selected = 0;
        self.cursor = 0;
        self.undo = Vec::new();
        self.redo = Vec::new();
        self.source = TasEditorSessionSource::Autosave;
        proof {
            assert(self@.undo =~= Seq::<SnapshotModel>::empty());
            assert(self@.redo =~= Seq::<SnapshotModel>::empty());
        }
        Ok(())
    }

    /// Whether a live recording history group is open.
    pub fn live_recording_history_group_active(&self) -> (r: bool)
        ensures
            r == (self@.history_group is Some),
    {
        self.history_group.is_some()
    }

    /// Opens a live recording history group: the frames it commits undo as one step.
    pub fn begin_live_recording_history_group(&mut self) -> (r: Result<(), TasEditError>)
        requires
            old(self)@.wf(),
        ensures
            final(self)@.wf(),
            match r {
                Ok(()) => old(self)@.history_group is None
                    && final(self)@ == (SessionModel { history_group: Some(false), ..old(self)@ }),
                Err(e) => e == TasEditError::HistoryGroupActive && old(self)@.history_group is Some
                    && final(self)@ == old(self)@,
            },
    {
        if self.history_group.is_some() {
            return Err(TasEditError::HistoryGroupActive);
        }
        self.history_group = Some(false);
        Ok(())
    }

    /// Closes the live recording history group; tells whether it recorded anything.
    pub fn end_live_recording_history_group(&mut self) -> (r: Result<bool, TasEditError>)
        requires
            old(self)@.wf(),
        ensures
            final(self)@.wf(),
            match old(self)@.history_group {
                Some(recorded) => r == Ok::<bool, TasEditError>(recorded)
                    && final(self)@ == (SessionModel { history_group: None, ..old(self)@ }),
                None => r == Err::<bool, TasEditError>(TasEditError::HistoryGroupInactive) && final(self)@ == old(self)@,
            },
    {
        match self.history_group {
            Some(recorded) => {
                self.history_group = None;
                Ok(recorded)
            },
            None => Err(TasEditError::HistoryGroupInactive),
        }
    }

    /// Installs `project` (equal to the current one but for its metadata or
    /// stamp) as a recorded edit.
    fn commit_same_branches(&mut self, project: TasProject)
        requires
            old(self)@.wf(),
            old(self)@.next_generation < u64::MAX,
            project@.branches == old(self)@.current.project.branches,
            project@.edit_generation == old(self)@.next_generation,
        ensures
            final(self)@.wf(),
            old(self)@.committed(final(self)@, SnapshotModel { project: project@, ..old(self)@.current }),
    {
        let sel = self.selected;
        let cursor = self.cursor;
        self.commit(project, sel, cursor);
    }

    /// Replaces the project's marker list.
    pub fn replace_markers(&mut self, markers: Vec<TasMarker>) -> (r: Result<TasEditOutcome, TasEditError>)
        requires
            old(self)@.wf(),
        ensures
            final(self)@.wf(),
            ({
                let o = old(self)@;
                let m = markers_view(markers@);
                if !markers_acceptable(o.current.project, m) {
                    r == Err::<TasEditOutcome, TasEditError>(TasEditError::InvalidMarker) && final(self)@ == o
                } else if m == o.current.project.markers {
                    r == Ok::<TasEditOutcome, TasEditError>(TasEditOutcome { changed: false }) && final(self)@ == o
                } else if o.next_generation == u64::MAX {
                    r == Err::<TasEditOutcome, TasEditError>(TasEditError::GenerationExhausted) && final(self)@ == o
                } else {
                    r == Ok::<TasEditOutcome, TasEditError>(TasEditOutcome { changed: true })
                        && o.committed(final(self)@, SnapshotModel {
                            project: ProjectModel { markers: m, edit_generation: o.next_generation, ..o.current.project },
                            ..o.current
                        })
                }
            }),
    {
        if !self.project.markers_acceptable(&markers) {
            return Err(TasEditError::InvalidMarker);
        }
        if markers_eq(&markers, &self.project.markers) {
            return Ok(TasEditOutcome { changed: false });
        }
        if self.next_generation == u64::MAX {
            return Err(TasEditError::GenerationExhausted);
        }
        let mut project = self.project.clone_project();
        project.markers = markers;
        project.edit_generation = self.next_generation;
        self.commit_same_branches(project);
        Ok(TasEditOutcome { changed: true })
    }

    /// Replaces the project's annotation list.
    pub fn replace_annotations(&mut self, annotations: Vec<TasAnnotation>) -> (r: Result<TasEditOutcome, TasEditError>)
        requires
            old(self)@.wf(),
        ensures
            final(self)@.wf(),
            ({
                let o = old(self)@;
                let a = annotations_view(annotations@);
                if !annotations_acceptable(o.current.project, a) {
                    r == Err::<TasEditOutcome, TasEditError>(TasEditError::InvalidAnnotation) && final(self)@ == o
                } else if a == o.current.project.annotations {
                    r == Ok::<TasEditOutcome, TasEditError>(TasEditOutcome { changed: false }) && final(self)@ == o
                } else if o.next_generation == u64::MAX {
                    r == Err::<TasEditOutcome, TasEditError>(TasEditError::GenerationExhausted) && final(self)@ == o
                } else {
                    r == Ok::<TasEditOutcome, TasEditError>(TasEditOutcome { changed: true })
                        && o.committed(final(self)@, SnapshotModel {
                            project: ProjectModel { annotations: a, edit_generation: o.next_generation, ..o.current.project },
                            ..o.current
                        })
                }
            }),
    {
        if !self.project.annotations_acceptable(&annotations) {
            return Err(TasEditError::InvalidAnnotation);
        }
        if annotations_eq(&annotations, &self.project.annotations) {
            return Ok(TasEditOutcome { changed: false });
        }
        if self.next_generation == u64::MAX {
            return Err(TasEditError::GenerationExhausted);
        }
        let mut project = self.project.clone_project();
        project.annotations = annotations;
        project.edit_generation = self.next_generation;
        self.commit_same_branches(project);
        Ok(TasEditOutcome { changed: true })
    }

    /// Replaces the events of the selected branch by `events` in canonical
    /// order; every event must lie at a boundary of the branch.
    pub fn replace_selected_events(&mut self, events: &Vec<ReplayEvent>) -> (r: Result<TasEditOutcome, TasEditError>)
        requires
            old(self)@.wf(),
        ensures
            final(self)@.wf(),
            ({
                let o = old(self)@;
                let e = events_view(events@);
                let sorted = canonical_order(e);
                if !(forall|k: int| 0 <= k < e.len() ==> (#[trigger] e[k]).frame() <= o.frames().len()) {
                    r == Err::<TasEditOutcome, TasEditError>(TasEditError::InvalidEvents) && final(self)@ == o
                } else if sorted == o.branch().events {
                    r == Ok::<TasEditOutcome, TasEditError>(TasEditOutcome { changed: false }) && final(self)@ == o
                } else if o.next_generation == u64::MAX {
                    r == Err::<TasEditOutcome, TasEditError>(TasEditError::GenerationExhausted) && final(self)@ == o
                } else {
                    r == Ok::<TasEditOutcome, TasEditError>(TasEditOutcome { changed: true })
                        && o.committed(final(self)@, SnapshotModel {
                            project: with_branch_content(o.current.project, o.current.selected, o.frames(), sorted, o.next_generation),
                            ..o.current
                        })
                }
            }),
    {
        let n = self.frame_count();
        let mut k: usize = 0;
        while k < events.len()
            invariant
                0 <= k <= events@.len(),
                self@ == old(self)@,
                old(self)@.wf(),
                n == old(self)@.frames().len(),
                forall|j: int| 0 <= j < k ==> (#[trigger] events_view(events@)[j]).frame() <= n,
            decreases events@.len() - k,
        {
            proof {
                assert(events_view(events@)[k as int] == events@[k as int]@);
            }
            if events[k].frame() > n {
                return Err(TasEditError::InvalidEvents);
            }
            k += 1;
        }
        let sorted = canonicalize_events(events);
        let sel = self.selected;
        proof {
            assert(self@.current.project.branches[sel as int] == self.project.branches@[sel as int]@);
        }
        if events_eq(&sorted, &self.project.branches[sel].events) {
            return Ok(TasEditOutcome { changed: false });
        }
        let frames = copy_frames(&self.project.branches[sel].frames);
        let cursor = self.cursor;
        match self.commit_selected_content(frames, sorted, cursor) {
            Ok(()) => Ok(TasEditOutcome { changed: true }),
            Err(e) => Err(e),
        }
    }

    /// Replaces the selected branch's frames by `frames` and its events by
    /// `events` in canonical order, and moves the cursor to `cursor`, as one
    /// recorded edit; every event must lie at a boundary of the new frames.
    pub fn replace_selected_content(&mut self, frames: Vec<TasInputFrame>, events: &Vec<ReplayEvent>, cursor: u64) -> (r: Result<TasEditOutcome, TasEditError>)
        requires
            old(self)@.wf(),
        ensures
            final(self)@.wf(),
            ({
                let o = old(self)@;
                let e = events_view(events@);
                let sorted = canonical_order(e);
                if frames@.len() > MAX_PROJECT_FRAMES {
                    r == Err::<TasEditOutcome, TasEditError>(TasEditError::FrameLimit) && final(self)@ == o
                } else if cursor > frames@.len() {
                    r == Err::<TasEditOutcome, TasEditError>(TasEditError::OutsideBranch) && final(self)@ == o
                } else if !(forall|k: int| 0 <= k < e.len() ==> (#[trigger] e[k]).frame() <= frames@.len()) {
                    r == Err::<TasEditOutcome, TasEditError>(TasEditError::InvalidEvents) && final(self)@ == o
                } else if frames@ == o.frames() && sorted == o.branch().events && cursor == o.cursor() {
                    r == Ok::<TasEditOutcome, TasEditError>(TasEditOutcome { changed: false }) && final(self)@ == o
                } else if o.next_generation == u64::MAX {
                    r == Err::<TasEditOutcome, TasEditError>(TasEditError::GenerationExhausted) && final(self)@ == o
                } else {
                    r == Ok::<TasEditOutcome, TasEditError>(TasEditOutcome { changed: true })
                        && o.committed(final(self)@, SnapshotModel {
                            project: with_branch_content(o.current.project, o.current.selected, frames@, sorted, o.next_generation),
                            cursor,
                            ..o.current
                        })
                }
            }),
    {
        let len = frames.len();
        if len as u64 > MAX_PROJECT_FRAMES {
            return Err(TasEditError::FrameLimit);
        }
        if cursor > len as u64 {
            return Err(TasEditError::OutsideBranch);
        }
        let n = len as u64;
        let mut k: usize = 0;
        while k < events.len()
            invariant
                0 <= k <= events@.len(),
                n == frames@.len(),
                n <= MAX_PROJECT_FRAMES,
                cursor <= n,
                self@ == old(self)@,
                old(self)@.wf(),
                forall|j: int| 0 <= j < k ==> (#[trigger] events_view(events@)[j]).frame() <= n,
            decreases events@.len() - k,
        {
            proof {
                assert(events_view(events@)[k as int] == events@[k as int]@);
            }
            if events[k].frame() > n {
                return Err(TasEditError::InvalidEvents);
            }
            k += 1;
        }
        let sorted = canonicalize_events(events);
        let sel = self.selected;
        proof {
            assert(self@.current.project.branches[sel as int] == self.project.branches@[sel as int]@);
        }
        if frames_eq(&frames, &self.project.branches[sel].frames) && events_eq(&sorted, &self.project.branches[sel].events)
            && cursor == self.cursor {
            return Ok(TasEditOutcome { changed: false });
        }
        match self.commit_selected_content(frames, sorted, cursor) {
            Ok(()) => Ok(TasEditOutcome { changed: true }),
            Err(e) => Err(e),
        }
    }

    /// Places a project read back from the autosave file in the autosave slot.
    pub fn set_autosave_slot(&mut self, project: TasProject) -> (r: Result<(), TasEditError>)
        requires
            old(self)@.wf(),
            project@.wf(),
        ensures
            final(self)@.wf(),
            match r {
                Ok(()) => final(self)@.autosave == Some(project@) && final(self)@.current == old(self)@.current
                    && final(self)@.undo == old(self)@.undo && final(self)@.redo == old(self)@.redo
                    && final(self)@.saved_generation == old(self)@.saved_generation,
                Err(e) => e == TasEditError::GenerationExhausted && final(self)@ == old(self)@,
            },
    {
        let mut next = if project.edit_generation >= self.next_generation {
            project.edit_generation
        } else {
            self.next_generation - 1
        };
        let mut i: usize = 0;
        while i < project.branches.len()
            invariant
                0 <= i <= project@.branches.len(),
                project@.edit_generation <= next,
                old(self)@.next_generation <= next + 1,
                forall|k: int| 0 <= k < i ==> (#[trigger] project@.branches[k]).revision <= next,
            decreases project@.branches.len() - i,
        {
            proof {
                assert(project@.branches[i as int] == project.branches@[i as int]@);
            }
            if project.branches[i].revision > next {
                next = project.branches[i].revision;
            }
            i += 1;
        }
        if next == u64::MAX {
            return Err(TasEditError::GenerationExhausted);
        }
        let ghost before = self@;
        self.next_generation = next + 1;
        self.autosave = Some(project);
        proof {
            assert forall|k: int| 0 <= k < self@.undo.len() implies snapshot_ok(#[trigger] self@.undo[k], self@.next_generation) by {
                lemma_snapshot_ok_grows(before.undo[k], before.next_generation, self@.next_generation);
            }
            assert forall|k: int| 0 <= k < self@.redo.len() implies snapshot_ok(#[trigger] self@.redo[k], self@.next_generation) by {
                lemma_snapshot_ok_grows(before.redo[k], before.next_generation, self@.next_generation);
            }
            lemma_snapshot_ok_grows(before.current, before.next_generation, self@.next_generation);
        }
        Ok(())
    }

    /// Commits one frame prepared by live recording at the cursor of the
    /// selected branch and moves the cursor past it. Inside a live recording
    /// history group, only the group's first frame records a history entry.
    pub fn commit_prepared_live_frame(&mut self, prepared: &TasPreparedLiveFrame) -> (r: Result<(), TasEditError>)
        requires
            old(self)@.wf(),
        ensures
            final(self)@.wf(),
            live_commit_result(old(self)@, final(self)@, *prepared, r),
    {
        let sel = self.selected;
        proof {
            assert(self@.current.project.branches[sel as int] == self.project.branches@[sel as int]@);
        }
        if !str_eq(prepared.branch_id.as_str(), self.project.branches[sel].id.as_str()) || prepared.cursor != self.cursor {
            return Err(TasEditError::OutsideBranch);
        }
        let n = self.project.branches[sel].frame_count();
        let c = prepared.cursor;
        let replaces = prepared.mode == TasLiveRecordingMode::ReplaceExistingInput && c < n;
        let (frames, events) = if replaces {
            let mut f = copy_frames(&self.project.branches[sel].frames);
            f.set(c as usize, prepared.input);
            (f, clone_events(&self.project.branches[sel].events))
        } else {
            if n >= MAX_PROJECT_FRAMES {
                return Err(TasEditError::FrameLimit);
            }
            let e = match shift_events_for_insert(&self.project.branches[sel].events, c, 1) {
                Some(e) => e,
                None => return Err(TasEditError::FrameLimit),
            };
            (insert_frame(&self.project.branches[sel].frames, c as usize, prepared.input), e)
        };
        if self.next_generation == u64::MAX {
            return Err(TasEditError::GenerationExhausted);
        }
        if self.history_group == Some(true) {
            let generation = self.next_generation;
            let project = self.project_with_content(sel, frames, events, generation);
            let ghost before = self@;
            proof {
                let old_p = self@.current.project;
                let new_p = project@;
                assert forall|a: int, b: int| 0 <= a < new_p.branches.len() && 0 <= b < new_p.branches.len() && a != b
                    implies #[trigger] new_p.branches[a].id != #[trigger] new_p.branches[b].id by {
                    assert(new_p.branches[a].id == old_p.branches[a].id);
                    assert(new_p.branches[b].id == old_p.branches[b].id);
                }
                assert forall|k: int| 0 <= k < new_p.branches.len() implies (#[trigger] new_p.branches[k]).frames.len() <= MAX_PROJECT_FRAMES by {
                    if k != sel {
                        assert(new_p.branches[k] == old_p.branches[k]);
                    }
                }
                assert forall|k: int| 0 <= k < new_p.branches.len() implies (#[trigger] new_p.branches[k]).revision < generation + 1 by {
                    if k != sel {
                        assert(new_p.branches[k] == old_p.branches[k]);
                    }
                }
            }
            self.project = project;
            self.cursor = c + 1;
            self.next_generation = generation + 1;
            proof {
                assert forall|k: int| 0 <= k < self@.undo.len() implies snapshot_ok(#[trigger] self@.undo[k], self@.next_generation) by {
                    lemma_snapshot_ok_grows(before.undo[k], before.next_generation, self@.next_generation);
                }
                assert forall|k: int| 0 <= k < self@.redo.len() implies snapshot_ok(#[trigger] self@.redo[k], self@.next_generation) by {
                    lemma_snapshot_ok_grows(before.redo[k], before.next_generation, self@.next_generation);
                }
            }
            return Ok(());
        }
        let grouped = self.history_group.is_some();
        match self.commit_selected_content(frames, events, c + 1) {
            Ok(()) => {
                if grouped {
                    self.history_group = Some(true);
                }
                Ok(())
            },
            Err(e) => Err(e),
        }
    }

    /// Deletes branch `id` and every branch descending from it, with their
    /// markers and annotations; returns how many branches went. Root branches
    /// and the family of the selected branch are kept.
    pub fn delete_branch_subtree(&mut self, id: &str) -> (r: Result<usize, TasEditError>)
        requires
            old(self)@.wf(),
        ensures
            final(self)@.wf(),
            ({
                let o = old(self)@;
                let b = o.current.project.branches;
                match r {
                    Ok(n) => o.current.project.has_branch(id@)
                        && o.next_generation < u64::MAX
                        && b[branch_index_of(b, id@).unwrap()].parent is Some
                        && !in_subtree(b, id@, o.branch().id)
                        && final(self)@.current.project.branches == kept_branches(b, id@, b.len() as int)
                        && n == b.len() - final(self)@.current.project.branches.len()
                        && final(self)@.current.project.markers == kept_markers(o.current.project.markers, b, id@, o.current.project.markers.len() as int)
                        && final(self)@.current.project.annotations == kept_annotations(o.current.project.annotations, b, id@, o.current.project.annotations.len() as int)
                        && final(self)@.branch().id == o.branch().id
                        && final(self)@.cursor() == o.cursor()
                        && final(self)@.undo == push_bounded(o.undo, o.current)
                        && final(self)@.redo.len() == 0,
                    Err(e) => final(self)@ == o && match e {
                        TasEditError::UnknownBranch => !o.current.project.has_branch(id@),
                        TasEditError::RootBranch => o.current.project.has_branch(id@) && b[branch_index_of(b, id@).unwrap()].parent is None,
                        TasEditError::ActiveBranchFamily => o.current.project.has_branch(id@)
                            && b[branch_index_of(b, id@).unwrap()].parent is Some && in_subtree(b, id@, o.branch().id),
                        TasEditError::GenerationExhausted => o.current.project.has_branch(id@)
                            && b[branch_index_of(b, id@).unwrap()].parent is Some && !in_subtree(b, id@, o.branch().id)
                            && o.next_generation == u64::MAX,
                        _ => false,
                    },
                }
            }),
    {
        let ghost o = self@;
        let ghost b = self@.current.project.branches;
        let target = match self.project.branch_index(id) {
            Some(i) => i,
            None => return Err(TasEditError::UnknownBranch),
        };
        proof {
            assert(b[target as int] == self.project.branches@[target as int]@);
            assert(b[self.selected as int] == self.project.branches@[self.selected as int]@);
        }
        if self.project.branches[target].parent.is_none() {
            return Err(TasEditError::RootBranch);
        }
        let selected_id = string_of(self.project.branches[self.selected].id.as_str());
        if self.project.in_subtree(id, selected_id.as_str()) {
            return Err(TasEditError::ActiveBranchFamily);
        }
        if self.next_generation == u64::MAX {
            return Err(TasEditError::GenerationExhausted);
        }
        let generation = self.next_generation;
        let mut branches: Vec<TasBranch> = Vec::new();
        let ghost mut picks: Seq<int> = Seq::empty();
        let mut k: usize = 0;
        while k < self.project.branches.len()
            invariant
                self@ == o,
                b == o.current.project.branches,
                o.wf(),
                0 <= k <= b.len(),
                branches_view(branches@) == kept_branches(b, id@, k as int),
                branches@.len() == picks.len(),
                branches@.len() <= k,
                forall|x: int| 0 <= x < picks.len() ==> 0 <= #[trigger] picks[x] < k && branches@[x]@ == b[picks[x]],
                forall|x: int, y: int| 0 <= x < y < picks.len() ==> #[trigger] picks[x] < #[trigger] picks[y],
                o.current.selected < k ==> exists|y: int| 0 <= y < picks.len() && #[trigger] picks[y] == o.current.selected,
                !in_subtree(b, id@, b[o.current.selected].id),
            decreases b.len() - k,
        {
            proof {
                assert(b[k as int] == self.project.branches@[k as int]@);
            }
            let ghost old_picks = picks;
            let inside = self.project.in_subtree(id, self.project.branches[k].id.as_str());
            if !inside {
                branches.push(self.project.branches[k].clone_branch());
                proof {
                    picks = picks.push(k as int);
                    assert(branches_view(branches@) =~= kept_branches(b, id@, k + 1));
                }
            } else {
                proof {
                    assert(branches_view(branches@) =~= kept_branches(b, id@, k + 1));
                }
            }
            proof {
                if o.current.selected < k {
                    let y = choose|y: int| 0 <= y < old_picks.len() && #[trigger] old_picks[y] == o.current.selected;
                    assert(picks[y] == old_picks[y]);
                } else if o.current.selected == k {
                    assert(picks[picks.len() - 1] == o.current.selected);
                }
            }
            k += 1;
        }
        let mut markers: Vec<TasMarker> = Vec::new();
        let mut m: usize = 0;
        let ghost mv = o.current.project.markers;
        while m < self.project.markers.len()
            invariant
                self@ == o,
                b == o.current.project.branches,
                mv == o.current.project.markers,
                o.wf(),
                0 <= m <= mv.len(),
                markers_view(markers@) == kept_markers(mv, b, id@, m as int),
            decreases mv.len() - m,
        {
            proof {
                assert(mv[m as int] == self.project.markers@[m as int]@);
            }
            if !self.project.in_subtree(id, self.project.markers[m].branch_id.as_str()) {
                markers.push(self.project.markers[m].clone_marker());
            }
            proof {
                assert(markers_view(markers@) =~= kept_markers(mv, b, id@, m + 1));
            }
            m += 1;
        }
        let mut annotations: Vec<TasAnnotation> = Vec::new();
        let mut a: usize = 0;
        let ghost av = o.current.project.annotations;
        while a < self.project.annotations.len()
            invariant
                self@ == o,
                b == o.current.project.branches,
                av == o.current.project.annotations,
                o.wf(),
                0 <= a <= av.len(),
                annotations_view(annotations@) == kept_annotations(av, b, id@, a as int),
            decreases av.len() - a,
        {
            proof {
                assert(av[a as int] == self.project.annotations@[a as int]@);
            }
            if !self.project.in_subtree(id, self.project.annotations[a].branch_id.as_str()) {
                annotations.push(self.project.annotations[a].clone_annotation());
            }
            proof {
                assert(annotations_view(annotations@) =~= kept_annotations(av, b, id@, a + 1));
            }
            a += 1;
        }
        let removed = self.project.branches.len() - branches.len();
        let project = TasProject {
            project_id: clone_string(&self.project.project_id),
            identity: self.project.identity.clone_identity(),
            branches,
            markers,
            annotations,
            assets: clone_assets(&self.project.assets),
            edit_generation: generation,
            rerecord_count: self.project.rerecord_count,
        };
        proof {
            let np = project@;
            assert(b.take(b.len() as int) =~= b);
            assert forall|x: int, y: int| 0 <= x < np.branches.len() && 0 <= y < np.branches.len() && x != y
                implies #[trigger] np.branches[x].id != #[trigger] np.branches[y].id by {
                assert(np.branches[x] == b[picks[x]]);
                assert(np.branches[y] == b[picks[y]]);
                if x < y {
                    assert(picks[x] < picks[y]);
                } else {
                    assert(picks[y] < picks[x]);
                }
            }
            assert forall|x: int| 0 <= x < np.branches.len() implies (#[trigger] np.branches[x]).frames.len() <= MAX_PROJECT_FRAMES && np.branches[x].revision < generation + 1 by {
                assert(np.branches[x] == b[picks[x]]);
            }
            let y = choose|y: int| 0 <= y < picks.len() && #[trigger] picks[y] == o.current.selected;
            assert(np.branches[y] == b[o.current.selected]);
        }
        let new_selected = match project.branch_index(selected_id.as_str()) {
            Some(i) => i,
            None => return Err(TasEditError::UnknownBranch),
        };
        proof {
            let np = project@;
            let y = choose|y: int| 0 <= y < picks.len() && #[trigger] picks[y] == o.current.selected;
            assert(np.branches[y] == b[o.current.selected]);
            assert(np.branches[new_selected as int] == project.branches@[new_selected as int]@);
            if new_selected as int != y {
                assert(np.branches[new_selected as int].id != np.branches[y].id);
            }
            assert(np.branches[new_selected as int] == b[o.current.selected]);
        }
        let cursor = self.cursor;
        self.commit(project, new_selected, cursor);
        Ok(removed)
    }

    /// Replaces runs of frames of branch `branch_id` by the patterns of
    /// `patches`, in order, as one recorded edit.
    pub fn replace_input_patterns(&mut self, branch_id: &str, patches: &Vec<(u64, TasInputPattern)>) -> (r: Result<TasEditOutcome, TasEditError>)
        requires
            old(self)@.wf(),
        ensures
            final(self)@.wf(),
            match branch_index_of(old(self)@.current.project.branches, branch_id@) {
                None => r == Err::<TasEditOutcome, TasEditError>(TasEditError::UnknownBranch) && final(self)@ == old(self)@,
                Some(i) => {
                    let frames = old(self)@.current.project.branches[i].frames;
                    if !patches_fit(patches@, frames.len()) {
                        r == Err::<TasEditOutcome, TasEditError>(TasEditError::OutsideBranch) && final(self)@ == old(self)@
                    } else {
                        frame_commit_result(old(self)@, final(self)@, i, splice_all(frames, patches@, patches@.len() as int), r)
                    }
                },
            },
    {
        let i = match self.project.branch_index(branch_id) {
            Some(i) => i,
            None => return Err(TasEditError::UnknownBranch),
        };
        proof {
            assert(self@.current.project.branches[i as int] == self.project.branches@[i as int]@);
        }
        let n = self.project.branches[i].frames.len();
        let mut frames = copy_frames(&self.project.branches[i].frames);
        let ghost original = frames@;
        let mut k: usize = 0;
        while k < patches.len()
            invariant
                0 <= k <= patches@.len(),
                self@ == old(self)@,
                old(self)@.wf(),
                i < old(self)@.current.project.branches.len(),
                branch_index_of(old(self)@.current.project.branches, branch_id@) == Some(i as int),
                original == self@.current.project.branches[i as int].frames,
                n == original.len(),
                frames@ == splice_all(original, patches@, k as int),
                frames@.len() == n,
                patches_fit(patches@.take(k as int), n as nat),
            decreases patches@.len() - k,
        {
            let start = patches[k].0;
            let plen = patches[k].1.frames.len();
            proof {
                assert(patches@.take(k + 1).drop_last() =~= patches@.take(k as int));
            }
            if start > n as u64 || plen as u64 > n as u64 - start {
                proof {
                    lemma_patches_fit_prefix(patches@, k as int, n as nat);
                }
                return Err(TasEditError::OutsideBranch);
            }
            let first = start as usize;
            let mut x: usize = 0;
            let ghost before = frames@;
            while x < plen
                invariant
                    0 <= x <= plen,
                    k < patches@.len(),
                    first + plen <= n,
                    first == start,
                    plen == patches@[k as int].1@.len(),
                    frames@.len() == n,
                    frames@ == Seq::new(n as nat, |y: int| if first <= y < first + x { patches@[k as int].1@[y - first] } else { before[y] }),
                decreases plen - x,
            {
                frames.set(first + x, patches[k].1.frames[x]);
                x += 1;
                proof {
                    assert(frames@ =~= Seq::new(n as nat, |y: int| if first <= y < first + x { patches@[k as int].1@[y - first] } else { before[y] }));
                }
            }
            proof {
                assert(frames@ =~= splice_pattern(before, start as int, patches@[k as int].1@));
                assert(patches_fit(patches@.take(k + 1), n as nat));
            }
            k += 1;
        }
        proof {
            assert(patches@.take(patches@.len() as int) =~= patches@);
            assert(self@.current.project.branches[i as int].frames.len() <= MAX_PROJECT_FRAMES);
        }
        self.commit_frames(i, frames)
    }
}

/// Every patch lies within a branch of `len` frames.
pub open spec fn patches_fit(patches: Seq<(u64, TasInputPattern)>, len: nat) -> bool {
    forall|k: int| 0 <= k < patches.len() ==> #[trigger] patches[k].0 + patches[k].1@.len() <= len
}

proof fn lemma_patches_fit_prefix(patches: Seq<(u64, TasInputPattern)>, k: int, len: nat)
    requires
        0 <= k < patches.len(),
        !(patches[k].0 + patches[k].1@.len() <= len),
    ensures
        !patches_fit(patches, len),
{
}

/// `frames` with the first `n` patches spliced in, in order.
pub open spec fn splice_all(frames: Seq<TasInputFrame>, patches: Seq<(u64, TasInputPattern)>, n: int) -> Seq<TasInputFrame>
    decreases n,
{
    if n <= 0 {
        frames
    } else {
        splice_pattern(splice_all(frames, patches, n - 1), patches[n - 1].0 as int, patches[n - 1].1@)
    }
}

/// The branches among the first `n` that do not descend from `root`.
pub open spec fn kept_branches(b: Seq<BranchModel>, root: Seq<char>, n: int) -> Seq<BranchModel>
    decreases n,
{
    if n <= 0 {
        Seq::empty()
    } else {
        let rest = kept_branches(b, root, n - 1);
        if in_subtree(b, root, b[n - 1].id) { rest } else { rest.push(b[n - 1]) }
    }
}

/// The markers among the first `n` whose branch does not descend from `root`.
pub open spec fn kept_markers(m: Seq<MarkerModel>, b: Seq<BranchModel>, root: Seq<char>, n: int) -> Seq<MarkerModel>
    decreases n,
{
    if n <= 0 {
        Seq::empty()
    } else {
        let rest = kept_markers(m, b, root, n - 1);
        if in_subtree(b, root, m[n - 1].branch_id) { rest } else { rest.push(m[n - 1]) }
    }
}

/// The first `n` assets without those named `digest`.
pub open spec fn kept_assets(a: Seq<AssetModel>, digest: TasDigest, n: int) -> Seq<AssetModel>
    decreases n,
{
    if n <= 0 {
        Seq::empty()
    } else {
        let rest = kept_assets(a, digest, n - 1);
        if a[n - 1].digest == digest { rest } else { rest.push(a[n - 1]) }
    }
}

/// The annotations among the first `n` whose branch does not descend from `root`.
pub open spec fn kept_annotations(a: Seq<AnnotationModel>, b: Seq<BranchModel>, root: Seq<char>, n: int) -> Seq<AnnotationModel>
    decreases n,
{
    if n <= 0 {
        Seq::empty()
    } else {
        let rest = kept_annotations(a, b, root, n - 1);
        if in_subtree(b, root, a[n - 1].branch_id) { rest } else { rest.push(a[n - 1]) }
    }
}

/// The project with a copy of branch `sel` forked at `cursor` as branch `id`.
pub open spec fn forked_project(p: ProjectModel, sel: int, cursor: u64, id: Seq<char>, name: Seq<char>, generation: u64) -> ProjectModel {
    ProjectModel {
        branches: p.branches.push(BranchModel {
            id,
            name,
            parent: Some(OriginModel { branch_id: p.branches[sel].id, fork_cursor: cursor }),
            frames: p.branches[sel].frames,
            events: p.branches[sel].events,
            revision: generation,
        }),
        edit_generation: generation,
        ..p
    }
}

/// The project with branch `sel` called `name`.
pub open spec fn renamed_project(p: ProjectModel, sel: int, name: Seq<char>, generation: u64) -> ProjectModel {
    ProjectModel {
        branches: p.branches.update(sel, BranchModel { name, ..p.branches[sel] }),
        edit_generation: generation,
        ..p
    }
}

/// A checkpoint a session with generation counter `next` can return to.
pub open spec fn checkpoint_ok(cp: CheckpointModel, next: u64) -> bool {
    &&& snapshot_ok(cp.snapshot, next)
    &&& forall|k: int| 0 <= k < cp.undo.len() ==> snapshot_ok(#[trigger] cp.undo[k], next)
    &&& forall|k: int| 0 <= k < cp.redo.len() ==> snapshot_ok(#[trigger] cp.redo[k], next)
    &&& cp.undo.len() + cp.redo.len() <= MAX_UNDO_HISTORY
}

/// A snapshot stays usable as the generation counter grows.
pub proof fn lemma_snapshot_ok_grows(s: SnapshotModel, n: u64, m: u64)
    requires
        snapshot_ok(s, n),
        n <= m,
    ensures
        snapshot_ok(s, m),
{
}

/// A checkpoint stays usable as the generation counter grows.
pub proof fn lemma_checkpoint_ok_grows(cp: CheckpointModel, n: u64, m: u64)
    requires
        checkpoint_ok(cp, n),
        n <= m,
    ensures
        checkpoint_ok(cp, m),
{
    assert forall|k: int| 0 <= k < cp.undo.len() implies snapshot_ok(#[trigger] cp.undo[k], m) by {
        lemma_snapshot_ok_grows(cp.undo[k], n, m);
    }
    assert forall|k: int| 0 <= k < cp.redo.len() implies snapshot_ok(#[trigger] cp.redo[k], m) by {
        lemma_snapshot_ok_grows(cp.redo[k], n, m);
    }
}

/// The project with branch `i` holding `frames` and `events`, both stamped with `generation`.
pub open spec fn with_branch_content(
    p: ProjectModel,
    i: int,
    frames: Seq<TasInputFrame>,
    events: Seq<ReplayEventModel>,
    generation: u64,
) -> ProjectModel {
    ProjectModel {
        branches: p.branches.update(i, BranchModel { frames, events, revision: generation, ..p.branches[i] }),
        edit_generation: generation,
        rerecord_count: crate::project::bumped(p.rerecord_count),
        ..p
    }
}


/// What committing a live frame did to session `o`, giving `n` and `r`: the
/// frame replaces the row at the cursor or is inserted there, the cursor
/// moves past it, and the edit is recorded or joins the open history group;
/// it is refused on another branch or row, past the frame limit or with an
/// exhausted history counter.
pub open spec fn live_commit_result(o: SessionModel, n: SessionModel, prepared: TasPreparedLiveFrame, r: Result<(), TasEditError>) -> bool {
    let frames = o.frames();
    let c = prepared.cursor;
    let replaces = prepared.mode == TasLiveRecordingMode::ReplaceExistingInput && c < frames.len();
    let new_frames = if replaces { frames.update(c as int, prepared.input) } else {
        frames_with_inserted(frames, c as int, prepared.input)
    };
    let new_events = if replaces { o.branch().events } else { events_after_insert(o.branch().events, c, 1) };
    let snapshot = SnapshotModel {
        project: with_branch_content(o.current.project, o.current.selected, new_frames, new_events, o.next_generation),
        cursor: (c + 1) as u64,
        ..o.current
    };
    match r {
        Ok(()) => prepared.branch_id@ == o.branch().id && c == o.cursor()
            && new_frames.len() <= MAX_PROJECT_FRAMES
            && (replaces || insert_shift_fits(o.branch().events, c, 1))
            && o.next_generation < u64::MAX
            && if o.history_group == Some(true) {
                n == (SessionModel { current: snapshot, next_generation: (o.next_generation + 1) as u64, ..o })
            } else {
                o.committed(
                    SessionModel { history_group: o.history_group, ..n },
                    snapshot,
                ) && n.history_group == if o.history_group is Some { Some(true) } else { None::<bool> }
            },
        Err(e) => n == o && match e {
            TasEditError::OutsideBranch => !(prepared.branch_id@ == o.branch().id && c == o.cursor()),
            TasEditError::FrameLimit => prepared.branch_id@ == o.branch().id && c == o.cursor()
                && (new_frames.len() > MAX_PROJECT_FRAMES || (!replaces && !insert_shift_fits(o.branch().events, c, 1))),
            TasEditError::GenerationExhausted => prepared.branch_id@ == o.branch().id && c == o.cursor()
                && new_frames.len() <= MAX_PROJECT_FRAMES
                && (replaces || insert_shift_fits(o.branch().events, c, 1))
                && o.next_generation == u64::MAX,
            _ => false,
        },
    }
}

/// What `commit_frames` promises: no change when `frames` equals what branch `i`
/// holds, a recorded edit installing `frames` otherwise, or the generation
/// running out.
pub open spec fn frame_commit_result(
    old: SessionModel,
    new: SessionModel,
    i: int,
    frames: Seq<TasInputFrame>,
    r: Result<TasEditOutcome, TasEditError>,
) -> bool {
    let unchanged = frames == old.current.project.branches[i].frames;
    if unchanged {
        r == Ok::<TasEditOutcome, TasEditError>(TasEditOutcome { changed: false }) && new == old
    } else if old.next_generation == u64::MAX {
        r == Err::<TasEditOutcome, TasEditError>(TasEditError::GenerationExhausted) && new == old
    } else {
        r == Ok::<TasEditOutcome, TasEditError>(TasEditOutcome { changed: true }) && old.committed(
            new,
            SnapshotModel {
                project: with_branch_frames(old.current.project, i, frames, old.next_generation),
                ..old.current
            },
        )
    }
}

/// A recorded edit leaves the project with changes not yet saved.
pub proof fn law_committed_edit_is_dirty(s: SessionModel, n: SessionModel, snapshot: SnapshotModel)
    requires
        s.wf(),
        s.committed(n, snapshot),
    ensures
        n.is_dirty(),
{
}

/// Undoing a recorded edit gives back the editable state from before the
/// edit, and leaves exactly that edit to redo.
pub proof fn law_undo_reverts_edit(before: SessionModel, edited: SessionModel, snapshot: SnapshotModel, undone: SessionModel)
    requires
        before.wf(),
        before.committed(edited, snapshot),
        edited.undone(undone),
    ensures
        undone.current == before.current,
        undone.redo == seq![snapshot],
{
    assert(undone.redo =~= seq![snapshot]);
}

/// Redoing right after an undo gives back the session from before the undo.
pub proof fn law_redo_after_undo(s: SessionModel, undone: SessionModel, redone: SessionModel)
    requires
        s.undone(undone),
        undone.redone(redone),
    ensures
        redone == s,
{
    assert(redone.undo =~= s.undo);
    assert(redone.redo =~= s.redo);
}

/// Undoing right after a redo gives back the session from before the redo.
pub proof fn law_undo_after_redo(s: SessionModel, redone: SessionModel, undone: SessionModel)
    requires
        s.redone(redone),
        redone.undone(undone),
    ensures
        undone == s,
{
    assert(undone.undo =~= s.undo);
    assert(undone.redo =~= s.redo);
}

/// Discarding a recording draft right after it began gives back the session
/// from before the recording, history included; only the generation counter
/// has moved on.
pub proof fn law_discard_restores_before_recording(
    before: SessionModel,
    drafted: SessionModel,
    snapshot: SnapshotModel,
    checkpoint: CheckpointModel,
    discarded: SessionModel,
)
    requires
        before.wf(),
        checkpoint == (CheckpointModel { snapshot: before.current, undo: before.undo, redo: before.redo }),
        before.committed(drafted, snapshot),
        discarded == (SessionModel { current: checkpoint.snapshot, undo: checkpoint.undo, redo: checkpoint.redo, ..drafted }),
    ensures
        discarded == (SessionModel { next_generation: drafted.next_generation, ..before }),
{
}

/// Recovering the autosave gives back the project as it was when it was
/// autosaved, whatever was recorded since: recorded edits keep the autosave.
pub proof fn law_recover_returns_autosaved_project(
    s: SessionModel,
    edited: SessionModel,
    snapshot: SnapshotModel,
    recovered: SessionModel,
)
    requires
        s.wf(),
        s.autosave == Some(s.current.project),
        s.committed(edited, snapshot),
        recovered == (SessionModel {
            current: SnapshotModel { project: edited.autosave.unwrap(), selected: 0, cursor: 0 },
            undo: Seq::empty(),
            redo: Seq::empty(),
            source: TasEditorSessionSource::Autosave,
            ..edited
        }),
    ensures
        edited.autosave == s.autosave,
        recovered.current.project == s.current.project,
{
}

/// A recorded edit never lets the history grow past its bound, and it keeps
/// the most recent entries.
pub proof fn law_history_is_bounded(before: SessionModel, edited: SessionModel, snapshot: SnapshotModel)
    requires
        before.wf(),
        before.committed(edited, snapshot),
    ensures
        edited.undo.len() <= MAX_UNDO_HISTORY,
        edited.undo.last() == before.current,
        forall|k: int| 0 <= k < edited.undo.len() - 1 ==> #[trigger] edited.undo[k] == before.undo[before.undo.len() - (edited.undo.len() - 1) + k],
{
}

} // verus!
