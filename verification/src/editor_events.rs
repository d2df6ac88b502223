//! Editing the FDS drive events of the selected branch: adding, changing
//! and removing disk-side selections and drive (media) events.
use vstd::prelude::*;

use crate::editor::{TasEditorError, TasEditorWindowState, lemma_recording_stays_ok};
use crate::fds_events::{
    FdsMediaMutation, TasTimelineError, can_author_fds_events, is_editable_event, media_event,
    is_drive_eject, is_drive_insert, law_disk_events_need_an_inserted_disk, needs_disk_in_drive,
    project_media_id, spec_can_author_fds_events, spec_is_editable_event, spec_media_event,
    spec_project_media_id, timeline_error, timeline_state, validate_timeline,
};
use crate::identity::IdentityModel;
use crate::input::TasDigest;
use crate::replay::{ReplayEvent, ReplayEventModel, canonical_order, canonicalize_events, clone_events, events_view};
use crate::session::{SessionModel, SnapshotModel, with_branch_content};
use crate::text::{str_eq, string_of};

verus! {

/// A change to the selected branch's drive events.
#[derive(Clone, Debug, PartialEq, Eq)]
pub enum TasEventMutation {
    /// Adds a disk-side selection.
    Add { branch_id: String, frame: u64, side: u8 },
    /// Adds a drive event of the project's own disk.
    AddMedia { branch_id: String, frame: u64, mutation: FdsMediaMutation },
    /// Replaces event `canonical_index`, which must still be `expected_event`,
    /// by a disk-side selection.
    Update { branch_id: String, canonical_index: usize, expected_event: ReplayEvent, frame: u64, side: u8 },
    /// Replaces event `canonical_index`, which must still be `expected_event`,
    /// by a drive event.
    UpdateMedia {
        branch_id: String,
        canonical_index: usize,
        expected_event: ReplayEvent,
        frame: u64,
        mutation: FdsMediaMutation,
    },
    /// Removes event `canonical_index`, which must still be `expected_event`.
    Remove { branch_id: String, canonical_index: usize, expected_event: ReplayEvent },
}

/// An event edit drafted against one project state.
#[derive(Clone, Debug, PartialEq, Eq)]
pub struct TasEventAction {
    pub expected_project_digest: TasDigest,
    pub mutation: TasEventMutation,
}

impl TasEventAction {
    pub fn new(expected_project_digest: TasDigest, mutation: TasEventMutation) -> (r: Self)
        ensures
            r.expected_project_digest == expected_project_digest,
            r.mutation == mutation,
    {
        TasEventAction { expected_project_digest, mutation }
    }
}

/// Why an event edit was refused.
#[derive(Clone, Copy, Debug, PartialEq, Eq, Structural)]
pub enum TasEventError {
    /// Only NES projects that declare the external FDS BIOS can gain drive events.
    CannotAuthor,
    /// The event index no longer names an event.
    MissingEvent,
    /// The event at the index is not the one the edit was drafted against.
    EventChanged,
    /// The event is not an editable FDS drive event.
    NotEditable,
    /// The drive events would not form a consistent timeline.
    Timeline(TasTimelineError),
}

impl TasEventError {
    /// The sentence shown for the error.
    pub open spec fn message_text(&self) -> Seq<char> {
        match self {
            TasEventError::CannotAuthor => "adding FDS drive events requires a NES project with declared nintendo.fds.bios firmware"@,
            TasEventError::MissingEvent => "the selected TAS event no longer exists; retry the edit"@,
            TasEventError::EventChanged => "the selected TAS event changed; retry the edit"@,
            TasEventError::NotEditable => "only FDS drive events are editable in this panel"@,
            TasEventError::Timeline(TasTimelineError::BoundaryOrder) => "FDS drive events must be non-terminal and occupy distinct frame boundaries"@,
            TasEventError::Timeline(TasTimelineError::MediaNotInserted) => "FDS drive event requires inserted project media"@,
            TasEventError::Timeline(TasTimelineError::AlreadyEjected) => "FDS drive is already ejected"@,
            TasEventError::Timeline(TasTimelineError::AlreadyInserted) => "FDS project media is already inserted"@,
        }
    }

    pub fn message(&self) -> (r: &'static str)
        ensures
            r@ == self.message_text(),
    {
        match self {
            TasEventError::CannotAuthor => "adding FDS drive events requires a NES project with declared nintendo.fds.bios firmware",
            TasEventError::MissingEvent => "the selected TAS event no longer exists; retry the edit",
            TasEventError::EventChanged => "the selected TAS event changed; retry the edit",
            TasEventError::NotEditable => "only FDS drive events are editable in this panel",
            TasEventError::Timeline(TasTimelineError::BoundaryOrder) => "FDS drive events must be non-terminal and occupy distinct frame boundaries",
            TasEventError::Timeline(TasTimelineError::MediaNotInserted) => "FDS drive event requires inserted project media",
            TasEventError::Timeline(TasTimelineError::AlreadyEjected) => "FDS drive is already ejected",
            TasEventError::Timeline(TasTimelineError::AlreadyInserted) => "FDS project media is already inserted",
        }
    }
}

/// The branch an event mutation names.
pub open spec fn mutation_branch(m: TasEventMutation) -> Seq<char> {
    match m {
        TasEventMutation::Add { branch_id, .. } => branch_id@,
        TasEventMutation::AddMedia { branch_id, .. } => branch_id@,
        TasEventMutation::Update { branch_id, .. } => branch_id@,
        TasEventMutation::UpdateMedia { branch_id, .. } => branch_id@,
        TasEventMutation::Remove { branch_id, .. } => branch_id@,
    }
}

/// Why event `i` cannot be changed, if it cannot: it is missing, it changed,
/// or it is not an editable drive event.
pub open spec fn exact_event_refusal(events: Seq<ReplayEventModel>, i: int, expected: ReplayEventModel, media: Seq<char>) -> Option<TasEventError> {
    if i >= events.len() {
        Some(TasEventError::MissingEvent)
    } else if events[i] != expected {
        Some(TasEventError::EventChanged)
    } else if !spec_is_editable_event(events[i], media) {
        Some(TasEventError::NotEditable)
    } else {
        None
    }
}

/// The events after the mutation, before they are put in canonical order.
pub open spec fn spec_event_edit(events: Seq<ReplayEventModel>, identity: IdentityModel, m: TasEventMutation) -> Result<Seq<ReplayEventModel>, TasEventError> {
    let media = spec_project_media_id(identity);
    match m {
        TasEventMutation::Add { frame, side, .. } => if !spec_can_author_fds_events(identity) {
            Err(TasEventError::CannotAuthor)
        } else {
            Ok(events.push(ReplayEventModel::FdsDiskSide { frame, side }))
        },
        TasEventMutation::AddMedia { frame, mutation, .. } => if !spec_can_author_fds_events(identity) {
            Err(TasEventError::CannotAuthor)
        } else {
            Ok(events.push(spec_media_event(frame, mutation, media)))
        },
        TasEventMutation::Update { canonical_index, expected_event, frame, side, .. } =>
            match exact_event_refusal(events, canonical_index as int, expected_event@, media) {
                Some(e) => Err(e),
                None => Ok(events.update(canonical_index as int, ReplayEventModel::FdsDiskSide { frame, side })),
            },
        TasEventMutation::UpdateMedia { canonical_index, expected_event, frame, mutation, .. } =>
            match exact_event_refusal(events, canonical_index as int, expected_event@, media) {
                Some(e) => Err(e),
                None => Ok(events.update(canonical_index as int, spec_media_event(frame, mutation, media))),
            },
        TasEventMutation::Remove { canonical_index, expected_event, .. } =>
            match exact_event_refusal(events, canonical_index as int, expected_event@, media) {
                Some(e) => Err(e),
                None => Ok(events.remove(canonical_index as int)),
            },
    }
}

/// Checks that event `i` is still `expected` and editable.
fn check_exact_event(events: &Vec<ReplayEvent>, i: usize, expected: &ReplayEvent, media: &String) -> (r: Result<(), TasEventError>)
    ensures
        match exact_event_refusal(events_view(events@), i as int, expected@, media@) {
            Some(e) => r == Err::<(), TasEventError>(e),
            None => r is Ok,
        },
{
    if i >= events.len() {
        return Err(TasEventError::MissingEvent);
    }
    proof {
        assert(events_view(events@)[i as int] == events@[i as int]@);
    }
    if !events[i].same_as(expected) {
        return Err(TasEventError::EventChanged);
    }
    if !is_editable_event(&events[i], media) {
        return Err(TasEventError::NotEditable);
    }
    Ok(())
}

/// Applies the mutation to a copy of `events`.
pub fn edit_events(events: &Vec<ReplayEvent>, identity: &crate::identity::TasProjectIdentity, m: &TasEventMutation) -> (r: Result<Vec<ReplayEvent>, TasEventError>)
    ensures
        match spec_event_edit(events_view(events@), identity@, *m) {
            Ok(v) => r is Ok && events_view(r->Ok_0@) == v,
            Err(e) => r == Err::<Vec<ReplayEvent>, TasEventError>(e),
        },
{
    let media = project_media_id(identity);
    let mut out = clone_events(events);
    let ghost before = events_view(out@);
    match m {
        TasEventMutation::Add { frame, side, .. } => {
            if !can_author_fds_events(identity) {
                return Err(TasEventError::CannotAuthor);
            }
            out.push(ReplayEvent::FdsDiskSide { frame: *frame, side: *side });
            proof {
                assert(events_view(out@) =~= before.push(ReplayEventModel::FdsDiskSide { frame: *frame, side: *side }));
            }
        },
        TasEventMutation::AddMedia { frame, mutation, .. } => {
            if !can_author_fds_events(identity) {
                return Err(TasEventError::CannotAuthor);
            }
            let e = media_event(*frame, *mutation, crate::text::clone_string(&media));
            let ghost ev = e@;
            out.push(e);
            proof {
                assert(events_view(out@) =~= before.push(ev));
            }
        },
        TasEventMutation::Update { canonical_index, expected_event, frame, side, .. } => {
            match check_exact_event(events, *canonical_index, expected_event, &media) {
                Ok(()) => {},
                Err(e) => return Err(e),
            }
            out.set(*canonical_index, ReplayEvent::FdsDiskSide { frame: *frame, side: *side });
            proof {
                assert(events_view(out@) =~= before.update(*canonical_index as int, ReplayEventModel::FdsDiskSide { frame: *frame, side: *side }));
            }
        },
        TasEventMutation::UpdateMedia { canonical_index, expected_event, frame, mutation, .. } => {
            match check_exact_event(events, *canonical_index, expected_event, &media) {
                Ok(()) => {},
                Err(e) => return Err(e),
            }
            let e = media_event(*frame, *mutation, crate::text::clone_string(&media));
            let ghost ev = e@;
            out.set(*canonical_index, e);
            proof {
                assert(events_view(out@) =~= before.update(*canonical_index as int, ev));
            }
        },
        TasEventMutation::Remove { canonical_index, expected_event, .. } => {
            match check_exact_event(events, *canonical_index, expected_event, &media) {
                Ok(()) => {},
                Err(e) => return Err(e),
            }
            out.remove(*canonical_index);
            proof {
                assert(events_view(out@) =~= before.remove(*canonical_index as int));
            }
        },
    }
    Ok(out)
}

/// The words naming an event edit in its message.
pub open spec fn event_label(m: TasEventMutation) -> Seq<char> {
    match m {
        TasEventMutation::Add { .. } => "Added FDS disk-side event"@,
        TasEventMutation::AddMedia { .. } => "Added FDS drive event"@,
        TasEventMutation::Update { .. } => "Updated FDS disk-side event"@,
        TasEventMutation::UpdateMedia { .. } => "Updated FDS drive event"@,
        TasEventMutation::Remove { .. } => "Removed FDS drive event"@,
    }
}

/// The answer an event edit owes once its witnesses hold and the edit
/// applies: a refused drive timeline, then success with its message unless
/// the history counter is exhausted; events past the branch's end are
/// refused as the branch holds them.
pub open spec fn event_answer(s: SessionModel, action: TasEventAction, edited: Seq<ReplayEventModel>, r: Result<String, TasEditorError>) -> bool {
    let sorted = canonical_order(edited);
    let media = spec_project_media_id(s.current.project.identity);
    if timeline_state(sorted, s.frames().len() as u64, media) is None {
        r == Err::<String, TasEditorError>(TasEditorError::Event(TasEventError::Timeline(
            timeline_error(sorted, s.frames().len() as u64, media),
        )))
    } else if (forall|k: int| 0 <= k < edited.len() ==> (#[trigger] edited[k]).frame() <= s.frames().len()) {
        if sorted == s.branch().events {
            r is Ok && r->Ok_0@ == "No event change ("@ + event_label(action.mutation) + ")"@
        } else if s.next_generation == u64::MAX {
            r == Err::<String, TasEditorError>(TasEditorError::Edit(crate::session::TasEditError::GenerationExhausted))
        } else {
            r is Ok && r->Ok_0@ == event_label(action.mutation)
        }
    } else {
        r == Err::<String, TasEditorError>(TasEditorError::Edit(crate::session::TasEditError::InvalidEvents))
    }
}

/// What an event edit did.
pub open spec fn event_outcome(o: TasEditorWindowState, n: TasEditorWindowState, action: TasEventAction, r: Result<String, TasEditorError>) -> bool {
    &&& (n.recording == o.recording)
    &&& (o.session is None ==> r == Err::<String, TasEditorError>(TasEditorError::NoProject))
    &&& (o.session is Some ==> n.session is Some)
    &&& (r is Err ==> (o.session is Some ==> n.session.unwrap()@ == o.session.unwrap()@))
    &&& (o.session is Some ==> ({
                    let s = o.session.unwrap()@;
                    let identity = s.current.project.identity;
                    let edit = spec_event_edit(s.branch().events, identity, action.mutation);
                    &&& TasDigest(s.current.project.edit_generation) != action.expected_project_digest
                        ==> r == Err::<String, TasEditorError>(TasEditorError::StaleProject)
                    &&& TasDigest(s.current.project.edit_generation) == action.expected_project_digest
                        && mutation_branch(action.mutation) != s.branch().id
                        ==> r == Err::<String, TasEditorError>(TasEditorError::StaleBranch)
                    &&& TasDigest(s.current.project.edit_generation) == action.expected_project_digest
                        && mutation_branch(action.mutation) == s.branch().id && edit is Err
                        ==> r == Err::<String, TasEditorError>(TasEditorError::Event(edit->Err_0))
                    &&& TasDigest(s.current.project.edit_generation) == action.expected_project_digest
                        && mutation_branch(action.mutation) == s.branch().id && edit is Ok
                        ==> event_answer(s, action, edit->Ok_0, r)
                    &&& r is Ok ==> {
                        let sorted = canonical_order(edit->Ok_0);
                        &&& TasDigest(s.current.project.edit_generation) == action.expected_project_digest
                        &&& mutation_branch(action.mutation) == s.branch().id
                        &&& edit is Ok
                        &&& timeline_state(sorted, s.frames().len() as u64, spec_project_media_id(identity)) is Some
                        &&& sorted == s.branch().events ==> n.session.unwrap()@ == s
                        &&& sorted != s.branch().events ==> s.committed(n.session.unwrap()@, SnapshotModel {
                            project: with_branch_content(s.current.project, s.current.selected, s.frames(), sorted, s.next_generation),
                            ..s.current
                        })
                    }
                }))
}

impl TasEditorWindowState {
    /// Applies an event edit to the selected branch as one recorded edit,
    /// after checking the project and branch it was drafted against and that
    /// the drive events stay consistent.
    pub fn apply_event_action(&mut self, action: TasEventAction) -> (r: Result<String, TasEditorError>)
        requires
            old(self).wf(),
        ensures
            final(self).wf(),
            event_outcome(*old(self), *final(self), action, r),
    {
        let session = match &self.session {
            Some(s) => s,
            None => return Err(TasEditorError::NoProject),
        };
        let ghost s0 = session@;
        if session.project_content_digest() != action.expected_project_digest {
            return Err(TasEditorError::StaleProject);
        }
        let branch_id = match &action.mutation {
            TasEventMutation::Add { branch_id, .. } => branch_id,
            TasEventMutation::AddMedia { branch_id, .. } => branch_id,
            TasEventMutation::Update { branch_id, .. } => branch_id,
            TasEventMutation::UpdateMedia { branch_id, .. } => branch_id,
            TasEventMutation::Remove { branch_id, .. } => branch_id,
        };
        if !str_eq(branch_id.as_str(), session.selected_branch_id()) {
            return Err(TasEditorError::StaleBranch);
        }
        let identity = &session.project().identity;
        let branch = session.selected_branch();
        let events = match edit_events(&branch.events, identity, &action.mutation) {
            Ok(v) => v,
            Err(e) => return Err(TasEditorError::Event(e)),
        };
        let sorted = canonicalize_events(&events);
        let media = project_media_id(identity);
        match validate_timeline(&sorted, session.frame_count(), &media) {
            Ok(()) => {},
            Err(e) => return Err(TasEditorError::Event(TasEventError::Timeline(e))),
        }
        let label = match &action.mutation {
            TasEventMutation::Add { .. } => "Added FDS disk-side event",
            TasEventMutation::AddMedia { .. } => "Added FDS drive event",
            TasEventMutation::Update { .. } => "Updated FDS disk-side event",
            TasEventMutation::UpdateMedia { .. } => "Updated FDS drive event",
            TasEventMutation::Remove { .. } => "Removed FDS drive event",
        };
        let mut session = match self.session.take() {
            Some(s) => s,
            None => return Err(TasEditorError::NoProject),
        };
        match session.replace_selected_events(&events) {
            Ok(outcome) => {
                proof {
                    lemma_recording_stays_ok(self.recording, s0, session@);
                }
                self.session = Some(session);
                if outcome.changed {
                    self.execution_preview = None;
                    Ok(string_of(label))
                } else {
                    let mut message = string_of("No event change (");
                    crate::text::push_str(&mut message, label);
                    crate::text::push_str(&mut message, ")");
                    Ok(message)
                }
            },
            Err(e) => {
                self.session = Some(session);
                Err(TasEditorError::Edit(e))
            },
        }
    }
}

/// An event edit whose resulting drive timeline selects a side or changes
/// write protection after an eject, with no insert between them, is refused
/// and leaves the session as it was.
pub proof fn law_disk_event_without_disk_is_refused(
    o: TasEditorWindowState,
    n: TasEditorWindowState,
    action: TasEventAction,
    r: Result<String, TasEditorError>,
    j: int,
    k: int,
)
    requires
        event_outcome(o, n, action, r),
        o.session is Some,
        spec_event_edit(o.session.unwrap()@.branch().events, o.session.unwrap()@.current.project.identity, action.mutation) is Ok,
        ({
            let s = o.session.unwrap()@;
            let sorted = canonical_order(spec_event_edit(s.branch().events, s.current.project.identity, action.mutation)->Ok_0);
            let media = spec_project_media_id(s.current.project.identity);
            &&& 0 <= j < k < sorted.len()
            &&& is_drive_eject(sorted[j], media)
            &&& needs_disk_in_drive(sorted[k], media)
            &&& forall|l: int| j < l < k ==> !is_drive_insert(#[trigger] sorted[l], media)
        }),
    ensures
        r is Err,
        n.session.unwrap()@ == o.session.unwrap()@,
{
    let s = o.session.unwrap()@;
    let sorted = canonical_order(spec_event_edit(s.branch().events, s.current.project.identity, action.mutation)->Ok_0);
    let media = spec_project_media_id(s.current.project.identity);
    law_disk_events_need_an_inserted_disk(sorted, j, k, s.frames().len() as u64, media);
}

} // verus!
