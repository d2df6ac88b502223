//! Edits of the selected branch drawn up against the timeline selection or
//! the marked ranges: laying a prepared run of input over the branch,
//! digital-control transforms, autofire and special-input transforms.
use vstd::prelude::*;

use crate::digital_masks::{spec_allowed_controls, spec_validate_mask, validate_mask, allowed_controls};
use crate::coleco_input::{is_coleco_system, spec_is_coleco_system};
use crate::editor::{TasEditorError, TasEditorWindowState, lemma_recording_stays_ok};
use crate::input::{
    TasDigest, TasDigitalInputMask, TasDigitalTransform, TasInputFrame, TasSpecialInputMask,
    TasSpecialTransform,
};
use crate::input_columns::{applicable_player_count, spec_applicable_player_count};
use crate::limits::MAX_PROJECT_FRAMES;
use crate::marked_ranges::TasMarkedRangesSnapshot;
use crate::pattern::{
    TasInputPattern, TasPatternError, player_mask, spec_autofire, spec_digital_transform,
    spec_special_transform,
};
use crate::selection::{TasInputSelection, spec_selected_range};
use crate::session::{SessionModel, SnapshotModel, TasEditError, TasEditorSession, splice_pattern, with_branch_frames};
use crate::special_input::{
    TasSpecialInputCapabilities, ensure_nondefault_input_authorable, special_input_capabilities,
    spec_capabilities, spec_input_authorable,
};
use crate::text::{clone_string, str_eq, string_of};

verus! {

/// Why the special-input channels of a transform were refused.
#[derive(Clone, Copy, Debug, PartialEq, Eq, Structural)]
pub enum TasSpecialMaskError {
    /// No channel is checked.
    NoChannels,
    /// The project declares no NES Zapper.
    UndeclaredZapper,
    /// The project declares no recorded-tilt device.
    UndeclaredTilt,
    /// The project declares no Pocket Camera.
    UndeclaredCamera,
}

impl TasSpecialMaskError {
    /// The sentence shown for the error.
    pub open spec fn message_text(&self) -> Seq<char> {
        match self {
            TasSpecialMaskError::NoChannels => "select at least one recorded-input channel to edit"@,
            TasSpecialMaskError::UndeclaredZapper => "the TAS project does not declare NES Zapper recorded input"@,
            TasSpecialMaskError::UndeclaredTilt => "the TAS project does not declare supported recorded tilt input"@,
            TasSpecialMaskError::UndeclaredCamera => "the TAS project does not declare Game Boy Pocket Camera recorded input"@,
        }
    }

    pub fn message(&self) -> (r: &'static str)
        ensures
            r@ == self.message_text(),
    {
        match self {
            TasSpecialMaskError::NoChannels => "select at least one recorded-input channel to edit",
            TasSpecialMaskError::UndeclaredZapper => "the TAS project does not declare NES Zapper recorded input",
            TasSpecialMaskError::UndeclaredTilt => "the TAS project does not declare supported recorded tilt input",
            TasSpecialMaskError::UndeclaredCamera => "the TAS project does not declare Game Boy Pocket Camera recorded input",
        }
    }
}

/// Why an autofire request was refused.
#[derive(Clone, Copy, Debug, PartialEq, Eq, Structural)]
pub enum TasAutofireError {
    /// ColecoVision controls are not standard-controller bits.
    ColecoEncoding,
    /// The project does not declare the player.
    UndeclaredPlayer,
    /// The project does not declare one of the controls.
    UndeclaredControl,
    /// No control is selected.
    NoControl,
    /// The period is not between 1 and 60 frames.
    InvalidPeriod,
    /// More ON frames than the period holds.
    OnFramesExceedPeriod,
}

impl TasAutofireError {
    /// The sentence shown for the error.
    pub open spec fn message_text(&self) -> Seq<char> {
        match self {
            TasAutofireError::ColecoEncoding => "digital autofire does not support ColecoVision control encoding"@,
            TasAutofireError::UndeclaredPlayer => "the TAS project does not declare that autofire player"@,
            TasAutofireError::UndeclaredControl => "the TAS project does not declare that digital autofire control"@,
            TasAutofireError::NoControl => "select at least one digital control for autofire"@,
            TasAutofireError::InvalidPeriod => "autofire period must be between 1 and 60 frames"@,
            TasAutofireError::OnFramesExceedPeriod => "autofire ON frames must not exceed its period"@,
        }
    }

    pub fn message(&self) -> (r: &'static str)
        ensures
            r@ == self.message_text(),
    {
        match self {
            TasAutofireError::ColecoEncoding => "digital autofire does not support ColecoVision control encoding",
            TasAutofireError::UndeclaredPlayer => "the TAS project does not declare that autofire player",
            TasAutofireError::UndeclaredControl => "the TAS project does not declare that digital autofire control",
            TasAutofireError::NoControl => "select at least one digital control for autofire",
            TasAutofireError::InvalidPeriod => "autofire period must be between 1 and 60 frames",
            TasAutofireError::OnFramesExceedPeriod => "autofire ON frames must not exceed its period",
        }
    }
}

/// What an edit of the selected branch was drawn up against: the project
/// content, the branch and its movie, and, for edits at the cursor, the cursor.
#[derive(Clone, Debug, PartialEq, Eq)]
pub struct TasPatternWitness {
    pub expected_project_digest: TasDigest,
    pub target_branch_id: String,
    pub target_movie_digest: TasDigest,
    pub expected_cursor: Option<u64>,
}

/// The first witness that no longer holds of the session, if any.
pub open spec fn spec_witness_refusal(s: SessionModel, w: TasPatternWitness) -> Option<TasEditorError> {
    if TasDigest(s.current.project.edit_generation) != w.expected_project_digest {
        Some(TasEditorError::StaleProject)
    } else if s.branch().id != w.target_branch_id@ {
        Some(TasEditorError::StaleBranch)
    } else if w.expected_cursor is Some && s.cursor() != w.expected_cursor.unwrap() {
        Some(TasEditorError::StaleCursor)
    } else if TasDigest(s.branch().revision) != w.target_movie_digest {
        Some(TasEditorError::StaleBranch)
    } else {
        None
    }
}

/// Accepts a witness that still holds of the session.
pub fn check_witness(session: &TasEditorSession, w: &TasPatternWitness) -> (r: Result<(), TasEditorError>)
    requires
        session@.wf(),
    ensures
        match spec_witness_refusal(session@, *w) {
            Some(e) => r == Err::<(), TasEditorError>(e),
            None => r is Ok,
        },
{
    if session.project_content_digest() != w.expected_project_digest {
        return Err(TasEditorError::StaleProject);
    }
    if !str_eq(session.selected_branch_id(), w.target_branch_id.as_str()) {
        return Err(TasEditorError::StaleBranch);
    }
    match w.expected_cursor {
        Some(c) => if session.cursor() != c {
            return Err(TasEditorError::StaleCursor);
        },
        None => {},
    }
    proof {
        crate::project::lemma_branch_index_of_member(session@.current.project.branches, session@.current.selected);
    }
    match session.project().branch_movie_digest(w.target_branch_id.as_str()) {
        Some(d) => if d != w.target_movie_digest {
            return Err(TasEditorError::StaleBranch);
        },
        None => return Err(TasEditorError::StaleBranch),
    }
    Ok(())
}

/// Whether laying `pattern` at `start` changes the selected branch.
pub open spec fn run_changes(s: SessionModel, start: u64, pattern: Seq<TasInputFrame>) -> bool {
    splice_pattern(s.frames(), start as int, pattern) != s.frames()
}

/// Whether the project may hold every frame of `pattern`.
pub open spec fn run_authorable(s: SessionModel, pattern: Seq<TasInputFrame>) -> bool {
    forall|k: int| 0 <= k < pattern.len()
        ==> spec_input_authorable(s.current.project.identity, s.current.project.assets, #[trigger] pattern[k])
}

/// `n` is `s` after `pattern` was laid at `start`: unchanged when the frames
/// already hold it, otherwise one recorded edit of the selected branch.
pub open spec fn run_applied(s: SessionModel, n: SessionModel, start: u64, pattern: Seq<TasInputFrame>) -> bool {
    if !run_changes(s, start, pattern) {
        n == s
    } else {
        s.committed(
            n,
            SnapshotModel {
                project: with_branch_frames(s.current.project, s.current.selected, splice_pattern(s.frames(), start as int, pattern), s.next_generation),
                ..s.current
            },
        )
    }
}

/// Why a run cannot be laid at `start`, apart from its frames' devices and
/// an exhausted history counter.
pub open spec fn spec_run_refusal(s: SessionModel, w: TasPatternWitness, start: u64, pattern: Seq<TasInputFrame>) -> Option<TasEditorError> {
    if spec_witness_refusal(s, w) is Some {
        spec_witness_refusal(s, w)
    } else if pattern.len() == 0 || pattern.len() > MAX_PROJECT_FRAMES {
        Some(TasEditorError::Pattern(TasPatternError::InvalidLength))
    } else if start + pattern.len() > s.frames().len() {
        Some(TasEditorError::Pattern(TasPatternError::OutsideBranch))
    } else {
        None
    }
}

/// The whole outcome of laying a run: the refusals in order, then the edit.
pub open spec fn run_result(
    s: SessionModel,
    n: SessionModel,
    w: TasPatternWitness,
    start: u64,
    pattern: Seq<TasInputFrame>,
    r: Result<bool, TasEditorError>,
) -> bool {
    if spec_run_refusal(s, w, start, pattern) is Some {
        r == Err::<bool, TasEditorError>(spec_run_refusal(s, w, start, pattern).unwrap()) && n == s
    } else if run_changes(s, start, pattern) && !run_authorable(s, pattern) {
        r matches Err(TasEditorError::SpecialInput(_)) && n == s
    } else if run_changes(s, start, pattern) && s.next_generation == u64::MAX {
        r == Err::<bool, TasEditorError>(TasEditorError::Edit(crate::session::TasEditError::GenerationExhausted)) && n == s
    } else {
        r == Ok::<bool, TasEditorError>(run_changes(s, start, pattern)) && run_applied(s, n, start, pattern)
    }
}

/// The frames are unchanged by a splice exactly when they already hold the run.
pub proof fn lemma_splice_same(frames: Seq<TasInputFrame>, start: int, p: Seq<TasInputFrame>)
    requires
        0 <= start,
        start + p.len() <= frames.len(),
    ensures
        (splice_pattern(frames, start, p) == frames) == (frames.subrange(start, start + p.len()) == p),
{
    if frames.subrange(start, start + p.len()) == p {
        assert forall|k: int| 0 <= k < frames.len() implies #[trigger] splice_pattern(frames, start, p)[k] == frames[k] by {
            if start <= k < start + p.len() {
                assert(p[k - start] == frames.subrange(start, start + p.len())[k - start]);
            }
        }
        assert(splice_pattern(frames, start, p) =~= frames);
    }
    if splice_pattern(frames, start, p) == frames {
        assert forall|k: int| 0 <= k < p.len() implies #[trigger] frames.subrange(start, start + p.len())[k] == p[k] by {
            assert(splice_pattern(frames, start, p)[start + k] == p[k]);
        }
        assert(frames.subrange(start, start + p.len()) =~= p);
    }
}

/// The refusal of the first frame of `pattern` the project may not hold, if any.
pub fn first_unauthorable(session: &TasEditorSession, pattern: &TasInputPattern) -> (r: Option<crate::special_input::TasSpecialInputError>)
    requires
        session@.wf(),
    ensures
        r is None <==> run_authorable(session@, pattern@),
{
    let len = pattern.frames.len();
    let mut k: usize = 0;
    while k < len
        invariant
            0 <= k <= len,
            len == pattern@.len(),
            session@.wf(),
            forall|j: int| 0 <= j < k ==> spec_input_authorable(session@.current.project.identity, session@.current.project.assets, #[trigger] pattern@[j]),
        decreases len - k,
    {
        match ensure_nondefault_input_authorable(&session.project().identity, &session.project().assets, pattern.frames[k]) {
            Ok(()) => {
                k += 1;
            },
            Err(e) => {
                return Some(e);
            },
        }
    }
    None
}

impl TasEditorWindowState {
    /// Lays `pattern` over the selected branch from row `start` as one
    /// recorded edit, after checking the witness and, when the frames change,
    /// that the project may hold every frame of the run. On success the run
    /// becomes the selection; returns whether the branch changed.
    pub fn apply_pattern_run(&mut self, witness: &TasPatternWitness, start: u64, pattern: &TasInputPattern) -> (r: Result<bool, TasEditorError>)
        requires
            old(self).wf(),
        ensures
            final(self).wf(),
            final(self).recording == old(self).recording,
            old(self).session is None ==> r == Err::<bool, TasEditorError>(TasEditorError::NoProject)
                && final(self).session is None,
            old(self).session is Some ==> final(self).session is Some && run_result(
                old(self).session.unwrap()@,
                final(self).session.unwrap()@,
                *witness,
                start,
                pattern@,
                r,
            ),
            r is Ok ==> final(self).timeline_selection.rows == Some((start, (start + pattern@.len() - 1) as u64)),
            r is Err ==> final(self).timeline_selection == old(self).timeline_selection,
            r is Err ==> final(self).marked_ranges == old(self).marked_ranges,
    {
        let session = match &self.session {
            Some(s) => s,
            None => return Err(TasEditorError::NoProject),
        };
        let ghost s0 = session@;
        match check_witness(session, witness) {
            Ok(()) => {},
            Err(e) => return Err(e),
        }
        let len = pattern.frames.len();
        if len == 0 || len as u64 > MAX_PROJECT_FRAMES {
            return Err(TasEditorError::Pattern(TasPatternError::InvalidLength));
        }
        let count = session.frame_count();
        if start > count || len as u64 > count - start {
            return Err(TasEditorError::Pattern(TasPatternError::OutsideBranch));
        }
        let current = match session.selected_branch().input_pattern(start, len as u64) {
            Ok(p) => p,
            Err(e) => return Err(TasEditorError::Pattern(e)),
        };
        let changes = !current.same_as(pattern);
        proof {
            lemma_splice_same(s0.frames(), start as int, pattern@);
            assert(changes == run_changes(s0, start, pattern@));
        }
        if changes {
            match first_unauthorable(session, pattern) {
                Some(e) => return Err(TasEditorError::SpecialInput(e)),
                None => {},
            }
        }
        let branch_id = string_of(session.selected_branch_id());
        let mut session = match self.session.take() {
            Some(s) => s,
            None => return Err(TasEditorError::NoProject),
        };
        proof {
            crate::project::lemma_branch_index_of_member(s0.current.project.branches, s0.current.selected);
        }
        match session.replace_input_pattern(branch_id.as_str(), start, pattern) {
            Ok(outcome) => {
                proof {
                    lemma_recording_stays_ok(self.recording, s0, session@);
                }
                self.session = Some(session);
                let end = start + len as u64;
                self.timeline_selection.select_range(start, end);
                if outcome.changed {
                    self.execution_preview = None;
                    self.queue_linked_edit_reconstruction(start, end);
                }
                Ok(outcome.changed)
            },
            Err(e) => {
                self.session = Some(session);
                Err(TasEditorError::Edit(e))
            },
        }
    }
}

/// A request to transform the checked controls within the selected rows.
#[derive(Clone, Debug, PartialEq, Eq)]
pub struct TasDigitalTransformAction {
    pub expected_project_digest: TasDigest,
    pub target_branch_id: String,
    pub target_movie_digest: TasDigest,
    pub selection: TasInputSelection,
    pub mask: TasDigitalInputMask,
    pub transform: TasDigitalTransform,
}

/// Whether `selection` is the selection the editor shows on the session.
pub open spec fn selection_current(state: TasEditorWindowState, s: SessionModel, selection: TasInputSelection) -> bool {
    spec_selected_range(state.timeline_selection.rows, s.frames().len() as u64) == Some((selection.start, selection.end))
        && selection.branch_id@ == s.branch().id
}

/// The witness of an edit drawn up against the selection.
pub open spec fn selection_witness(project: TasDigest, branch: String, movie: TasDigest) -> TasPatternWitness {
    TasPatternWitness {
        expected_project_digest: project,
        target_branch_id: branch,
        target_movie_digest: movie,
        expected_cursor: None,
    }
}

/// Why a selection edit is refused before its run is built: a changed
/// selection, a stale witness, a selection on another branch or outside the
/// branch.
pub open spec fn spec_selection_edit_refusal(
    state: TasEditorWindowState,
    s: SessionModel,
    w: TasPatternWitness,
    selection: TasInputSelection,
) -> Option<TasEditorError> {
    if !selection_current(state, s, selection) {
        Some(TasEditorError::StaleSelection)
    } else if spec_witness_refusal(s, w) is Some {
        spec_witness_refusal(s, w)
    } else if selection.branch_id@ != w.target_branch_id@ {
        Some(TasEditorError::StaleBranch)
    } else if !(selection.start < selection.end && selection.end <= s.frames().len()) {
        Some(TasEditorError::InvalidSelection)
    } else {
        None
    }
}

/// What a selected-controls edit of the selection did.
pub open spec fn transform_outcome(o: TasEditorWindowState, n: TasEditorWindowState, action: TasDigitalTransformAction, r: Result<String, TasEditorError>) -> bool {
    &&& (o.session is None ==> r == Err::<String, TasEditorError>(TasEditorError::NoProject))
    &&& (r is Err ==> (o.session is Some ==> n.session is Some
                    && n.session.unwrap()@ == o.session.unwrap()@))
    &&& (o.session is Some ==> ({
                    let s = o.session.unwrap()@;
                    let w = selection_witness(action.expected_project_digest, action.target_branch_id, action.target_movie_digest);
                    let sel = action.selection;
                    &&& spec_selection_edit_refusal(o, s, w, sel) is Some ==> r == Err::<String, TasEditorError>(
                        spec_selection_edit_refusal(o, s, w, sel).unwrap())
                    &&& spec_selection_edit_refusal(o, s, w, sel) is None
                        && spec_validate_mask(s.current.project.identity, action.mask) is Err
                        ==> r == Err::<String, TasEditorError>(TasEditorError::Mask(spec_validate_mask(s.current.project.identity, action.mask)->Err_0))
                    &&& r is Ok ==> ({
                        let run = spec_digital_transform(s.frames().subrange(sel.start as int, sel.end as int), action.mask, action.transform);
                        &&& spec_selection_edit_refusal(o, s, w, sel) is None
                        &&& spec_validate_mask(s.current.project.identity, action.mask) is Ok
                        &&& (run_changes(s, sel.start, run) ==> run_authorable(s, run))
                        &&& run_applied(s, n.session.unwrap()@, sel.start, run)
                        &&& r->Ok_0@ == if run_changes(s, sel.start, run) {
                            match action.transform {
                                TasDigitalTransform::Clear => "Cleared selected controls"@,
                                TasDigitalTransform::Invert => "Inverted selected controls"@,
                                TasDigitalTransform::Reverse => "Reversed selected controls"@,
                            }
                        } else {
                            "Control edit made no change"@
                        }
                    })
                    &&& (spec_selection_edit_refusal(o, s, w, sel) is None
                        && spec_validate_mask(s.current.project.identity, action.mask) is Ok
                        && ({
                            let run = spec_digital_transform(s.frames().subrange(sel.start as int, sel.end as int), action.mask, action.transform);
                            run_changes(s, sel.start, run) ==> run_authorable(s, run) && s.next_generation < u64::MAX
                        })) ==> r is Ok
                }))
}

/// Clearing the checked controls of rows `start..end` a second time finds
/// nothing to change: after one clear was laid over the rows, the clear of
/// the resulting rows leaves the branch as it is, so no edit is recorded and
/// the edit answers that it made no change.
pub proof fn law_repeated_clear_is_no_op(s: SessionModel, n: SessionModel, start: u64, end: u64, mask: TasDigitalInputMask)
    requires
        s.wf(),
        start < end <= s.frames().len(),
        run_applied(s, n, start, crate::pattern::spec_digital_transform(
            s.frames().subrange(start as int, end as int), mask, TasDigitalTransform::Clear)),
    ensures
        !run_changes(n, start, crate::pattern::spec_digital_transform(
            n.frames().subrange(start as int, end as int), mask, TasDigitalTransform::Clear)),
{
    let once = crate::pattern::spec_digital_transform(s.frames().subrange(start as int, end as int), mask, TasDigitalTransform::Clear);
    let spliced = splice_pattern(s.frames(), start as int, once);
    if run_changes(s, start, once) {
        assert(n.current.project.branches[n.current.selected].frames == spliced);
    } else {
        assert(n.frames() == s.frames());
    }
    assert(n.frames() == spliced);
    assert(n.frames().subrange(start as int, end as int) =~= once);
    crate::pattern::law_clear_idempotent(s.frames().subrange(start as int, end as int), mask);
    lemma_splice_same(n.frames(), start as int, once);
}

impl TasEditorWindowState {
    /// Accepts a selection edit whose selection and witness still hold.
    pub fn check_selection_edit(&self, w: &TasPatternWitness, selection: &TasInputSelection) -> (r: Result<(), TasEditorError>)
        requires
            self.wf(),
            self.session is Some,
        ensures
            match spec_selection_edit_refusal(*self, self.session.unwrap()@, *w, *selection) {
                Some(e) => r == Err::<(), TasEditorError>(e),
                None => r is Ok,
            },
    {
        let session = match &self.session {
            Some(s) => s,
            None => return Err(TasEditorError::NoProject),
        };
        let current = match self.timeline_selection.snapshot(session) {
            Some(c) => c.same_as(selection),
            None => false,
        };
        if !current {
            return Err(TasEditorError::StaleSelection);
        }
        match check_witness(session, w) {
            Ok(()) => {},
            Err(e) => return Err(e),
        }
        if !str_eq(selection.branch_id.as_str(), w.target_branch_id.as_str()) {
            return Err(TasEditorError::StaleBranch);
        }
        if selection.start >= selection.end || selection.end > session.frame_count() {
            return Err(TasEditorError::InvalidSelection);
        }
        Ok(())
    }

    /// Transforms the checked controls within the selected rows, as one edit.
    pub fn apply_digital_transform(&mut self, action: TasDigitalTransformAction) -> (r: Result<String, TasEditorError>)
        requires
            old(self).wf(),
        ensures
            final(self).wf(),
            final(self).recording == old(self).recording,
            transform_outcome(*old(self), *final(self), action, r),
    {
        let session = match &self.session {
            Some(s) => s,
            None => return Err(TasEditorError::NoProject),
        };
        let ghost s0 = session@;
        let witness = TasPatternWitness {
            expected_project_digest: action.expected_project_digest,
            target_branch_id: action.target_branch_id,
            target_movie_digest: action.target_movie_digest,
            expected_cursor: None,
        };
        match self.check_selection_edit(&witness, &action.selection) {
            Ok(()) => {},
            Err(e) => return Err(e),
        }
        match validate_mask(&session.project().identity, action.mask) {
            Ok(()) => {},
            Err(e) => return Err(TasEditorError::Mask(e)),
        }
        let start = action.selection.start;
        let original = match session.selected_branch().input_pattern(start, action.selection.end - start) {
            Ok(p) => p,
            Err(e) => return Err(TasEditorError::Pattern(e)),
        };
        let run = original.with_digital_transform(action.mask, action.transform);
        proof {
            assert(action.selection.end - start <= MAX_PROJECT_FRAMES) by {
                assert(s0.frames().len() <= MAX_PROJECT_FRAMES);
            }
        }
        match self.apply_pattern_run(&witness, start, &run) {
            Ok(changed) => {
                if changed {
                    Ok(string_of(match action.transform {
                        TasDigitalTransform::Clear => "Cleared selected controls",
                        TasDigitalTransform::Invert => "Inverted selected controls",
                        TasDigitalTransform::Reverse => "Reversed selected controls",
                    }))
                } else {
                    Ok(string_of("Control edit made no change"))
                }
            },
            Err(e) => Err(e),
        }
    }
}

/// A request to apply autofire to one player's controls within the selected rows.
#[derive(Clone, Debug, PartialEq, Eq)]
pub struct TasDigitalAutofireAction {
    pub expected_project_digest: TasDigest,
    pub target_branch_id: String,
    pub target_movie_digest: TasDigest,
    pub selection: TasInputSelection,
    pub player: usize,
    pub buttons_mask: u8,
    pub dpad_mask: u8,
    pub period: u8,
    pub on_frames: u8,
}

/// Why the autofire settings are refused for a project, if they are.
pub open spec fn spec_autofire_refusal(identity: crate::identity::IdentityModel, a: TasDigitalAutofireAction) -> Option<TasAutofireError> {
    let allowed = spec_allowed_controls(identity.system);
    if spec_is_coleco_system(identity.system) {
        Some(TasAutofireError::ColecoEncoding)
    } else if a.player >= spec_applicable_player_count(identity.devices) {
        Some(TasAutofireError::UndeclaredPlayer)
    } else if a.buttons_mask & !allowed.buttons != 0 || a.dpad_mask & !allowed.dpad != 0 {
        Some(TasAutofireError::UndeclaredControl)
    } else if a.buttons_mask == 0 && a.dpad_mask == 0 {
        Some(TasAutofireError::NoControl)
    } else if !(1 <= a.period <= 60) {
        Some(TasAutofireError::InvalidPeriod)
    } else if a.on_frames > a.period {
        Some(TasAutofireError::OnFramesExceedPeriod)
    } else {
        None
    }
}

/// Accepts autofire settings the project supports.
pub fn check_autofire(identity: &crate::identity::TasProjectIdentity, a: &TasDigitalAutofireAction) -> (r: Result<(), TasAutofireError>)
    ensures
        match spec_autofire_refusal(identity@, *a) {
            Some(e) => r == Err::<(), TasAutofireError>(e),
            None => r is Ok,
        },
{
    if is_coleco_system(identity.system.as_str()) {
        return Err(TasAutofireError::ColecoEncoding);
    }
    if a.player >= applicable_player_count(identity) {
        return Err(TasAutofireError::UndeclaredPlayer);
    }
    let allowed = allowed_controls(identity);
    if a.buttons_mask & !allowed.buttons != 0 || a.dpad_mask & !allowed.dpad != 0 {
        return Err(TasAutofireError::UndeclaredControl);
    }
    if a.buttons_mask == 0 && a.dpad_mask == 0 {
        return Err(TasAutofireError::NoControl);
    }
    if a.period < 1 || a.period > 60 {
        return Err(TasAutofireError::InvalidPeriod);
    }
    if a.on_frames > a.period {
        return Err(TasAutofireError::OnFramesExceedPeriod);
    }
    Ok(())
}

/// The autofire run over the selected rows of `s`.
pub open spec fn autofire_run(s: SessionModel, a: TasDigitalAutofireAction) -> Seq<TasInputFrame> {
    spec_autofire(
        s.frames().subrange(a.selection.start as int, a.selection.end as int),
        player_mask(a.player, a.buttons_mask, a.dpad_mask),
        a.period,
        a.on_frames,
    )
}

/// What applying autofire to the selection did.
pub open spec fn autofire_outcome(o: TasEditorWindowState, n: TasEditorWindowState, action: TasDigitalAutofireAction, r: Result<String, TasEditorError>) -> bool {
    &&& (o.session is None ==> r == Err::<String, TasEditorError>(TasEditorError::NoProject))
    &&& (r is Err ==> (o.session is Some ==> n.session is Some
                    && n.session.unwrap()@ == o.session.unwrap()@))
    &&& (o.session is Some ==> ({
                    let s = o.session.unwrap()@;
                    let w = selection_witness(action.expected_project_digest, action.target_branch_id, action.target_movie_digest);
                    let sel = action.selection;
                    let run = autofire_run(s, action);
                    &&& spec_selection_edit_refusal(o, s, w, sel) is Some ==> r == Err::<String, TasEditorError>(
                        spec_selection_edit_refusal(o, s, w, sel).unwrap())
                    &&& spec_selection_edit_refusal(o, s, w, sel) is None
                        && spec_autofire_refusal(s.current.project.identity, action) is Some
                        ==> r == Err::<String, TasEditorError>(TasEditorError::Autofire(spec_autofire_refusal(s.current.project.identity, action).unwrap()))
                    &&& r is Ok ==> {
                        &&& spec_selection_edit_refusal(o, s, w, sel) is None
                        &&& spec_autofire_refusal(s.current.project.identity, action) is None
                        &&& (run_changes(s, sel.start, run) ==> run_authorable(s, run))
                        &&& run_applied(s, n.session.unwrap()@, sel.start, run)
                        &&& r->Ok_0@ == if run_changes(s, sel.start, run) { "Applied digital autofire"@ } else { "Digital autofire made no change"@ }
                    }
                    &&& (spec_selection_edit_refusal(o, s, w, sel) is None
                        && spec_autofire_refusal(s.current.project.identity, action) is None
                        && (run_changes(s, sel.start, run) ==> run_authorable(s, run) && s.next_generation < u64::MAX))
                        ==> r is Ok
                }))
}

impl TasEditorWindowState {
    /// Applies autofire to one player's controls within the selected rows, as one edit.
    pub fn apply_digital_autofire(&mut self, action: TasDigitalAutofireAction) -> (r: Result<String, TasEditorError>)
        requires
            old(self).wf(),
        ensures
            final(self).wf(),
            final(self).recording == old(self).recording,
            autofire_outcome(*old(self), *final(self), action, r),
    {
        let session = match &self.session {
            Some(s) => s,
            None => return Err(TasEditorError::NoProject),
        };
        let ghost s0 = session@;
        let witness = TasPatternWitness {
            expected_project_digest: action.expected_project_digest,
            target_branch_id: clone_string(&action.target_branch_id),
            target_movie_digest: action.target_movie_digest,
            expected_cursor: None,
        };
        match self.check_selection_edit(&witness, &action.selection) {
            Ok(()) => {},
            Err(e) => return Err(e),
        }
        match check_autofire(&session.project().identity, &action) {
            Ok(()) => {},
            Err(e) => return Err(TasEditorError::Autofire(e)),
        }
        proof {
            assert(s0.frames().len() <= MAX_PROJECT_FRAMES);
            crate::input_columns::lemma_max_player_bound(s0.current.project.identity.devices);
        }
        let start = action.selection.start;
        let original = match session.selected_branch().input_pattern(start, action.selection.end - start) {
            Ok(p) => p,
            Err(e) => return Err(TasEditorError::Pattern(e)),
        };
        let run = match original.with_digital_autofire(action.player, action.buttons_mask, action.dpad_mask, action.period, action.on_frames) {
            Ok(p) => p,
            Err(e) => return Err(TasEditorError::Pattern(e)),
        };
        match self.apply_pattern_run(&witness, start, &run) {
            Ok(changed) => {
                if changed {
                    Ok(string_of("Applied digital autofire"))
                } else {
                    Ok(string_of("Digital autofire made no change"))
                }
            },
            Err(e) => Err(e),
        }
    }
}

/// What a special-input transform applies to: the selected rows, or every
/// marked range.
#[derive(Clone, Debug, PartialEq, Eq)]
pub enum TasSpecialRangeTarget {
    Selection(TasInputSelection),
    Marked(TasMarkedRangesSnapshot),
}

/// A request to transform the checked special-input channels within the
/// selection or the marked ranges.
#[derive(Clone, Debug, PartialEq, Eq)]
pub struct TasSpecialRangeAction {
    pub expected_project_digest: TasDigest,
    pub target_branch_id: String,
    pub target_movie_digest: TasDigest,
    pub target: TasSpecialRangeTarget,
    pub mask: TasSpecialInputMask,
    pub transform: TasSpecialTransform,
}

/// Why the checked channels are refused for a project, if they are.
pub open spec fn spec_special_mask_refusal(identity: crate::identity::IdentityModel, mask: TasSpecialInputMask) -> Option<TasSpecialMaskError> {
    let c = spec_capabilities(identity);
    if !mask.zapper && !mask.tilt_x && !mask.tilt_y && !mask.camera {
        Some(TasSpecialMaskError::NoChannels)
    } else if mask.zapper && !c.nes_zapper {
        Some(TasSpecialMaskError::UndeclaredZapper)
    } else if (mask.tilt_x || mask.tilt_y) && !(c.mbc7_tilt || c.gba_tilt) {
        Some(TasSpecialMaskError::UndeclaredTilt)
    } else if mask.camera && !c.pocket_camera {
        Some(TasSpecialMaskError::UndeclaredCamera)
    } else {
        None
    }
}

/// Accepts checked channels that the project declares.
pub fn check_special_mask(identity: &crate::identity::TasProjectIdentity, mask: TasSpecialInputMask) -> (r: Result<(), TasSpecialMaskError>)
    ensures
        match spec_special_mask_refusal(identity@, mask) {
            Some(e) => r == Err::<(), TasSpecialMaskError>(e),
            None => r is Ok,
        },
{
    if !mask.zapper && !mask.tilt_x && !mask.tilt_y && !mask.camera {
        return Err(TasSpecialMaskError::NoChannels);
    }
    let c = special_input_capabilities(identity);
    if mask.zapper && !c.nes_zapper {
        return Err(TasSpecialMaskError::UndeclaredZapper);
    }
    if (mask.tilt_x || mask.tilt_y) && !(c.mbc7_tilt || c.gba_tilt) {
        return Err(TasSpecialMaskError::UndeclaredTilt);
    }
    if mask.camera && !c.pocket_camera {
        return Err(TasSpecialMaskError::UndeclaredCamera);
    }
    Ok(())
}

/// The ranges a special-input target names.
pub open spec fn special_target_ranges(target: TasSpecialRangeTarget) -> Seq<(u64, u64)> {
    match target {
        TasSpecialRangeTarget::Selection(sel) => seq![(sel.start, sel.end)],
        TasSpecialRangeTarget::Marked(snap) => snap.ranges@,
    }
}

/// The message of a special-input edit of `target`.
pub open spec fn special_range_message(transform: TasSpecialTransform, target: TasSpecialRangeTarget) -> Seq<char> {
    let verb = match transform {
        TasSpecialTransform::Clear => "Cleared selected recorded input"@,
        TasSpecialTransform::Reverse => "Reversed selected recorded input"@,
    };
    match target {
        TasSpecialRangeTarget::Selection(_) => verb + " in the input selection"@,
        TasSpecialRangeTarget::Marked(snap) => verb + " across "@ + crate::text::decimal(snap.ranges@.len()) + " marked ranges"@,
    }
}

/// The answer a special-input edit of checked, current ranges owes: a
/// refusal of a value the project may not hold, the exhausted history
/// counter when the movie would change, otherwise success.
pub open spec fn special_run_answer(
    o: TasEditorWindowState,
    n: TasEditorWindowState,
    action: TasSpecialRangeAction,
    marks: Option<(Seq<(u64, u64)>, u64)>,
    r: Result<String, TasEditorError>,
) -> bool {
    let s = o.session.unwrap()@;
    let ranges = special_target_ranges(action.target);
    let edit = crate::range_edits::special_edit(action.mask, action.transform);
    let target = crate::range_edits::transform_ranges(s.frames(), ranges, edit, ranges.len() as int);
    if !crate::range_edits::ranges_authorable(s.current.project.identity, s.current.project.assets, s.frames(), ranges, edit, ranges.len() as int) {
        r matches Err(TasEditorError::SpecialInput(_))
    } else if target != s.frames() && s.next_generation == u64::MAX {
        r == Err::<String, TasEditorError>(TasEditorError::Edit(TasEditError::GenerationExhausted))
    } else {
        r is Ok && crate::editor_marked::range_edit_success(o, n, marks, target,
            crate::range_edits::changed_ranges(s.frames(), ranges, edit, ranges.len() as int),
            special_range_message(action.transform, action.target), "Recorded-input edit made no change"@, r)
    }
}

/// The answer a special-input edit owes once its witnesses and mask are
/// accepted: the checks of its target in order, then the edit's own answer.
pub open spec fn special_target_answer(o: TasEditorWindowState, n: TasEditorWindowState, action: TasSpecialRangeAction, r: Result<String, TasEditorError>) -> bool {
    let s = o.session.unwrap()@;
    let w = selection_witness(action.expected_project_digest, action.target_branch_id, action.target_movie_digest);
    match action.target {
        TasSpecialRangeTarget::Selection(sel) => match spec_selection_edit_refusal(o, s, w, sel) {
            Some(e) => r == Err::<String, TasEditorError>(e),
            None => special_run_answer(o, n, action, None, r),
        },
        TasSpecialRangeTarget::Marked(snap) => {
            let refusal = crate::editor_marked::spec_marked_snapshot_refusal(o.marked_ranges, s, snap);
            if refusal is Some {
                r == Err::<String, TasEditorError>(refusal.unwrap())
            } else if snap.ranges@.len() == 0 {
                r == Err::<String, TasEditorError>(TasEditorError::NoMarkedRanges)
            } else if !(snap.ranges@.len() <= crate::limits::MAX_MARKED_INPUT_RANGES && crate::ranges::canonical(snap.ranges@)
                && crate::ranges::all_within(snap.ranges@, s.frames().len() as u64)) {
                r matches Err(TasEditorError::Ranges(_))
            } else if snap.revision == u64::MAX {
                r == Err::<String, TasEditorError>(TasEditorError::MarkedRanges(crate::marked_ranges::TasMarkedRangesError::RevisionOverflow))
            } else {
                special_run_answer(o, n, action, Some((snap.ranges@, snap.revision)), r)
            }
        },
    }
}

/// What a special-input edit of the target ranges did.
pub open spec fn special_range_outcome(o: TasEditorWindowState, n: TasEditorWindowState, action: TasSpecialRangeAction, r: Result<String, TasEditorError>) -> bool {
    &&& (o.session is None ==> r == Err::<String, TasEditorError>(TasEditorError::NoProject))
    &&& (r is Err ==> (o.session is Some ==> n.session is Some
                    && n.session.unwrap()@ == o.session.unwrap()@))
    &&& (o.session is Some ==> ({
                    let s = o.session.unwrap()@;
                    let w = selection_witness(action.expected_project_digest, action.target_branch_id, action.target_movie_digest);
                    &&& spec_witness_refusal(s, w) is Some ==> r == Err::<String, TasEditorError>(spec_witness_refusal(s, w).unwrap())
                    &&& spec_witness_refusal(s, w) is None && spec_special_mask_refusal(s.current.project.identity, action.mask) is Some
                        ==> r == Err::<String, TasEditorError>(TasEditorError::SpecialMask(
                            spec_special_mask_refusal(s.current.project.identity, action.mask).unwrap()))
                    &&& r is Ok ==> {
                        let ranges = special_target_ranges(action.target);
                        let edit = crate::range_edits::special_edit(action.mask, action.transform);
                        let target = crate::range_edits::transform_ranges(s.frames(), ranges, edit, ranges.len() as int);
                        &&& spec_witness_refusal(s, w) is None
                        &&& spec_special_mask_refusal(s.current.project.identity, action.mask) is None
                        &&& ranges.len() > 0
                        &&& crate::ranges::ranges_within(ranges, s.frames().len() as u64)
                        &&& crate::range_edits::ranges_authorable(s.current.project.identity, s.current.project.assets, s.frames(), ranges, edit, ranges.len() as int)
                        &&& (action.target matches TasSpecialRangeTarget::Selection(sel) ==> selection_current(o, s, sel))
                        &&& (action.target matches TasSpecialRangeTarget::Marked(snap) ==>
                            crate::editor_marked::spec_marked_snapshot_refusal(o.marked_ranges, s, snap) is None
                            && crate::ranges::canonical(snap.ranges@))
                        &&& target == s.frames() ==> n.session.unwrap()@ == s
                        &&& target != s.frames() ==> n.session.unwrap()@.frames() == target
                            && n.session.unwrap()@.undo.len() > 0
                            && n.session.unwrap()@.undo.last() == s.current
                    }
                    &&& spec_witness_refusal(s, w) is None && spec_special_mask_refusal(s.current.project.identity, action.mask) is None
                        ==> special_target_answer(o, n, action, r)
                    &&& r is Err && action.target is Marked && spec_witness_refusal(s, w) is None
                        && spec_special_mask_refusal(s.current.project.identity, action.mask) is None
                        ==> (n.marked_ranges.ranges@, n.marked_ranges.revision) == crate::editor_marked::synced_marks(o.marked_ranges, s)
                    &&& r is Err && (action.target is Selection || spec_witness_refusal(s, w) is Some
                        || spec_special_mask_refusal(s.current.project.identity, action.mask) is Some)
                        ==> n.marked_ranges == o.marked_ranges
                }))
}

impl TasEditorWindowState {
    /// Transforms the checked special-input channels within the selection or
    /// within every marked range, as one edit.
    pub fn apply_special_range_transform(&mut self, action: TasSpecialRangeAction) -> (r: Result<String, TasEditorError>)
        requires
            old(self).wf(),
        ensures
            final(self).wf(),
            final(self).recording == old(self).recording,
            special_range_outcome(*old(self), *final(self), action, r),
    {
        let session = match &self.session {
            Some(s) => s,
            None => return Err(TasEditorError::NoProject),
        };
        let ghost s0 = session@;
        let witness = TasPatternWitness {
            expected_project_digest: action.expected_project_digest,
            target_branch_id: clone_string(&action.target_branch_id),
            target_movie_digest: action.target_movie_digest,
            expected_cursor: None,
        };
        match check_witness(session, &witness) {
            Ok(()) => {},
            Err(e) => return Err(e),
        }
        match check_special_mask(&session.project().identity, action.mask) {
            Ok(()) => {},
            Err(e) => return Err(TasEditorError::SpecialMask(e)),
        }
        let count = session.frame_count();
        let (ranges, marked) = match &action.target {
            TasSpecialRangeTarget::Selection(sel) => {
                match self.check_selection_edit(&witness, sel) {
                    Ok(()) => {},
                    Err(e) => return Err(e),
                }
                let mut v: Vec<(u64, u64)> = Vec::new();
                v.push((sel.start, sel.end));
                proof {
                    assert(v@ =~= seq![(sel.start, sel.end)]);
                }
                (v, false)
            },
            TasSpecialRangeTarget::Marked(snapshot) => {
                match self.marked_ranges.sync(session) {
                    Ok(()) => {},
                    Err(e) => return Err(TasEditorError::MarkedRanges(e)),
                }
                proof {
                    if self.marked_ranges.ranges@.len() == 0 {
                        assert(self.marked_ranges.ranges@ =~= Seq::<(u64, u64)>::empty());
                    }
                }
                match crate::editor_marked::validate_snapshot(&self.marked_ranges, snapshot) {
                    Ok(()) => {},
                    Err(e) => return Err(e),
                }
                if snapshot.ranges.len() == 0 {
                    return Err(TasEditorError::NoMarkedRanges);
                }
                match crate::ranges::validate_ranges(&snapshot.ranges, count) {
                    Ok(()) => {},
                    Err(e) => return Err(TasEditorError::Ranges(e)),
                }
                (crate::ranges::copy_ranges(&snapshot.ranges), true)
            },
        };
        let session = match &self.session {
            Some(s) => s,
            None => return Err(TasEditorError::NoProject),
        };
        let next_revision = if marked {
            match self.marked_ranges.next_revision() {
                Ok(v) => v,
                Err(e) => return Err(TasEditorError::MarkedRanges(e)),
            }
        } else {
            0
        };
        let edit = crate::range_edits::TasRangeEdit::Special { mask: action.mask, transform: action.transform };
        let branch = session.selected_branch();
        let (frames, changed) = match crate::range_edits::transform_marked_ranges(
            &branch.frames,
            &ranges,
            edit,
            &session.project().identity,
            &session.project().assets,
        ) {
            Ok(v) => v,
            Err(e) => return Err(TasEditorError::SpecialInput(e)),
        };
        if changed.len() == 0 {
            proof {
                crate::range_edits::lemma_no_change(s0.frames(), ranges@, edit, ranges@.len() as int);
            }
            return Ok(string_of("Recorded-input edit made no change"));
        }
        let bounds = crate::editor_marked::changed_bounds(&changed);
        let branch_id = string_of(session.selected_branch_id());
        let mut session = match self.session.take() {
            Some(s) => s,
            None => return Err(TasEditorError::NoProject),
        };
        let ghost before = session@;
        let patches: Vec<(u64, TasInputPattern)> = vec![(0, TasInputPattern { frames })];
        proof {
            crate::project::lemma_branch_index_of_member(before.current.project.branches, before.current.selected);
            assert(crate::ranges::canonical(ranges@));
            crate::range_edits::lemma_changed_canonical(before.frames(), ranges@, edit, ranges@.len() as int);
            let ch = changed@;
            assert(ch[0].0 < ch[0].1);
            if ch.len() > 1 {
                assert(ch[0].1 < ch[ch.len() - 1].0);
                assert(ch[ch.len() - 1].0 < ch[ch.len() - 1].1);
            }
            assert(ch[0].0 < ch.last().1);
            crate::range_edits::lemma_transform_len(before.frames(), ranges@, edit, ranges@.len() as int);
            assert(patches@[0].1@.len() == before.frames().len());
            reveal_with_fuel(crate::session::splice_all, 2);
            assert(patches@[0].0 == 0);
            assert(crate::session::splice_all(before.frames(), patches@, 1) =~= patches@[0].1@);
            assert(crate::session::patches_fit(patches@, before.frames().len()));
        }
        match session.replace_input_patterns(branch_id.as_str(), &patches) {
            Ok(outcome) => {
                proof {
                    lemma_recording_stays_ok(self.recording, before, session@);
                    crate::range_edits::lemma_transform_len(before.frames(), ranges@, edit, ranges@.len() as int);
                    assert(patches@[0].1@.len() == before.frames().len());
                    reveal_with_fuel(crate::session::splice_all, 2);
                    assert(crate::session::splice_all(before.frames(), patches@, 1) =~= patches@[0].1@);
                }
                self.session = Some(session);
                if outcome.changed {
                    if marked {
                        let session_ref = match &self.session {
                            Some(s) => s,
                            None => return Err(TasEditorError::NoProject),
                        };
                        self.marked_ranges.refresh_after_apply(session_ref, next_revision, ranges);
                    }
                    self.execution_preview = None;
                    match bounds {
                        Some((s, e)) => self.queue_linked_edit_reconstruction(s, e),
                        None => {},
                    }
                }
                let mut message = string_of(match action.transform {
                    TasSpecialTransform::Clear => "Cleared selected recorded input",
                    TasSpecialTransform::Reverse => "Reversed selected recorded input",
                });
                match &action.target {
                    TasSpecialRangeTarget::Selection(_) => crate::text::push_str(&mut message, " in the input selection"),
                    TasSpecialRangeTarget::Marked(snapshot) => {
                        crate::text::push_str(&mut message, " across ");
                        crate::text::push_decimal(&mut message, snapshot.ranges.len() as u64);
                        crate::text::push_str(&mut message, " marked ranges");
                    },
                }
                Ok(message)
            },
            Err(e) => {
                self.session = Some(session);
                Err(TasEditorError::Edit(e))
            },
        }
    }
}

} // verus!
