//! The list of input ranges marked for a bulk control edit, bound to the
//! project state it was drawn up against and versioned by a revision.
use vstd::prelude::*;

use crate::input::{TasDigest, TasDigitalInputMask, TasDigitalTransform};
use crate::ranges::{copy_ranges, ranges_eq};
use crate::selection::TasInputSelection;
use crate::session::TasEditorSession;
use crate::text::{clone_string, string_eq, string_of};

verus! {

/// The project state marked ranges refer to.
#[derive(Clone, Debug, PartialEq, Eq)]
pub struct TasMarkedRangesContext {
    pub expected_project_digest: TasDigest,
    pub target_branch_id: String,
    pub expected_edit_generation: u64,
    pub expected_frame_count: u64,
}

pub struct ContextModel {
    pub digest: TasDigest,
    pub branch_id: Seq<char>,
    pub generation: u64,
    pub frame_count: u64,
}

impl View for TasMarkedRangesContext {
    type V = ContextModel;

    open spec fn view(&self) -> ContextModel {
        ContextModel {
            digest: self.expected_project_digest,
            branch_id: self.target_branch_id@,
            generation: self.expected_edit_generation,
            frame_count: self.expected_frame_count,
        }
    }
}

/// The context of a session as it stands.
pub open spec fn session_context(s: crate::session::SessionModel) -> ContextModel {
    ContextModel {
        digest: TasDigest(s.current.project.edit_generation),
        branch_id: s.branch().id,
        generation: s.current.project.edit_generation,
        frame_count: s.frames().len() as u64,
    }
}

/// What a queued marked-range action saw when it was drawn up.
#[derive(Clone, Debug, PartialEq, Eq)]
pub struct TasMarkedRangesSnapshot {
    pub expected_project_digest: TasDigest,
    pub target_branch_id: String,
    pub expected_edit_generation: u64,
    pub expected_frame_count: u64,
    pub revision: u64,
    pub ranges: Vec<(u64, u64)>,
}

/// A request to change the marked ranges or to edit the input they cover.
#[derive(Clone, Debug, PartialEq, Eq)]
pub enum TasMarkedRangesAction {
    Add { snapshot: TasMarkedRangesSnapshot, selection: TasInputSelection },
    Remove { snapshot: TasMarkedRangesSnapshot, index: usize },
    Clear { snapshot: TasMarkedRangesSnapshot },
    Apply {
        snapshot: TasMarkedRangesSnapshot,
        target_movie_digest: TasDigest,
        mask: TasDigitalInputMask,
        transform: TasDigitalTransform,
    },
}

/// The marked ranges and the context they belong to.
#[derive(Debug)]
pub struct TasMarkedInputRangesState {
    pub context: Option<TasMarkedRangesContext>,
    pub revision: u64,
    pub ranges: Vec<(u64, u64)>,
}

/// Why the marked ranges could not be used.
#[derive(Clone, Copy, Debug, PartialEq, Eq, Structural)]
pub enum TasMarkedRangesError {
    RevisionOverflow,
    Stale,
}

pub open spec fn opt_context_view(c: Option<TasMarkedRangesContext>) -> Option<ContextModel> {
    match c {
        Some(x) => Some(x@),
        None => None,
    }
}

impl TasMarkedRangesContext {
    /// The context of `session` as it stands.
    pub fn from_session(session: &TasEditorSession) -> (r: Self)
        requires
            session@.wf(),
        ensures
            r@ == session_context(session@),
    {
        TasMarkedRangesContext {
            expected_project_digest: session.project_content_digest(),
            target_branch_id: string_of(session.selected_branch_id()),
            expected_edit_generation: session.project().edit_generation(),
            expected_frame_count: session.frame_count(),
        }
    }

    pub fn same_as(&self, other: &Self) -> (r: bool)
        ensures
            r == (self@ == other@),
    {
        self.expected_project_digest == other.expected_project_digest
            && string_eq(&self.target_branch_id, &other.target_branch_id)
            && self.expected_edit_generation == other.expected_edit_generation
            && self.expected_frame_count == other.expected_frame_count
    }

    pub fn clone_context(&self) -> (r: Self)
        ensures
            r@ == self@,
    {
        TasMarkedRangesContext {
            expected_project_digest: self.expected_project_digest,
            target_branch_id: clone_string(&self.target_branch_id),
            expected_edit_generation: self.expected_edit_generation,
            expected_frame_count: self.expected_frame_count,
        }
    }
}

/// What taking a snapshot of the marked ranges `m` on session `s` gave:
/// the ranges bound to the session (a changed context drops them under a
/// new revision) and the snapshot describing them, or an exhausted revision
/// counter.
pub open spec fn snapshot_taken(
    m: TasMarkedInputRangesState,
    n: TasMarkedInputRangesState,
    s: crate::session::SessionModel,
    r: Result<TasMarkedRangesSnapshot, TasMarkedRangesError>,
) -> bool {
    let same = opt_context_view(m.context) == Some(session_context(s));
    match r {
        Ok(snap) => (same || m.revision < u64::MAX)
            && opt_context_view(n.context) == Some(session_context(s))
            && snap.expected_project_digest == TasDigest(s.current.project.edit_generation)
            && snap.target_branch_id@ == s.branch().id
            && snap.expected_edit_generation == s.current.project.edit_generation
            && snap.expected_frame_count == s.frames().len()
            && snap.revision == n.revision
            && snap.ranges@ == n.ranges@
            && (same ==> n.revision == m.revision && n.ranges@ == m.ranges@)
            && (!same ==> n.revision == m.revision + 1 && n.ranges@.len() == 0),
        Err(e) => e == TasMarkedRangesError::RevisionOverflow && !same && m.revision == u64::MAX
            && n.revision == m.revision && n.ranges@ == m.ranges@ && opt_context_view(n.context) == opt_context_view(m.context),
    }
}

/// Two snapshots taken in a row on an unchanged session agree: the second
/// gives the same answer as the first (the same revision and ranges, or the
/// same refusal) and leaves the marked ranges as the first left them.
pub proof fn law_second_snapshot_agrees(
    m0: TasMarkedInputRangesState,
    m1: TasMarkedInputRangesState,
    m2: TasMarkedInputRangesState,
    s: crate::session::SessionModel,
    first: Result<TasMarkedRangesSnapshot, TasMarkedRangesError>,
    second: Result<TasMarkedRangesSnapshot, TasMarkedRangesError>,
)
    requires
        snapshot_taken(m0, m1, s, first),
        snapshot_taken(m1, m2, s, second),
    ensures
        first is Ok ==> second is Ok && second->Ok_0.revision == first->Ok_0.revision
            && second->Ok_0.ranges@ == first->Ok_0.ranges@,
        first is Err ==> second == first,
        m2.revision == m1.revision,
        m2.ranges@ == m1.ranges@,
        opt_context_view(m2.context) == opt_context_view(m1.context),
{
}

impl TasMarkedInputRangesState {
    pub fn new() -> (r: Self)
        ensures
            r.context is None,
            r.revision == 0,
            r.ranges@.len() == 0,
    {
        TasMarkedInputRangesState { context: None, revision: 0, ranges: Vec::new() }
    }

    /// The revision after this one.
    pub fn next_revision(&self) -> (r: Result<u64, TasMarkedRangesError>)
        ensures
            match r {
                Ok(v) => self.revision < u64::MAX && v == self.revision + 1,
                Err(e) => e == TasMarkedRangesError::RevisionOverflow && self.revision == u64::MAX,
            },
    {
        if self.revision == u64::MAX {
            Err(TasMarkedRangesError::RevisionOverflow)
        } else {
            Ok(self.revision + 1)
        }
    }

    /// Forgets the ranges and their context under a new revision, so that no
    /// queued action can apply any more.
    pub fn reset(&mut self) -> (r: Result<(), TasMarkedRangesError>)
        ensures
            match r {
                Ok(()) => old(self).revision < u64::MAX && final(self).revision == old(self).revision + 1
                    && final(self).context is None && final(self).ranges@.len() == 0,
                Err(e) => e == TasMarkedRangesError::RevisionOverflow && old(self).revision == u64::MAX
                    && final(self).revision == old(self).revision && opt_context_view(final(self).context) == opt_context_view(old(self).context)
                    && final(self).ranges@ == old(self).ranges@,
            },
    {
        let revision = match self.next_revision() {
            Ok(r) => r,
            Err(e) => return Err(e),
        };
        self.context = None;
        self.ranges = Vec::new();
        self.revision = revision;
        Ok(())
    }

    /// Binds the state to the session's current context; a changed context
    /// drops the ranges under a new revision.
    pub fn sync(&mut self, session: &TasEditorSession) -> (r: Result<(), TasMarkedRangesError>)
        requires
            session@.wf(),
        ensures
            ({
                let same = opt_context_view(old(self).context) == Some(session_context(session@));
                if same {
                    r is Ok && final(self).revision == old(self).revision && opt_context_view(final(self).context) == opt_context_view(old(self).context)
                        && final(self).ranges@ == old(self).ranges@
                } else if old(self).revision == u64::MAX {
                    r == Err::<(), TasMarkedRangesError>(TasMarkedRangesError::RevisionOverflow)
                        && final(self).revision == old(self).revision && opt_context_view(final(self).context) == opt_context_view(old(self).context)
                        && final(self).ranges@ == old(self).ranges@
                } else {
                    r is Ok && final(self).revision == old(self).revision + 1
                        && opt_context_view(final(self).context) == Some(session_context(session@))
                        && final(self).ranges@.len() == 0
                }
            }),
    {
        let context = TasMarkedRangesContext::from_session(session);
        let same = match &self.context {
            Some(c) => c.same_as(&context),
            None => false,
        };
        if same {
            return Ok(());
        }
        let revision = match self.next_revision() {
            Ok(r) => r,
            Err(e) => return Err(e),
        };
        self.context = Some(context);
        self.ranges = Vec::new();
        self.revision = revision;
        Ok(())
    }

    /// The ranges, synced to the session, as a snapshot for a queued action.
    pub fn snapshot(&mut self, session: &TasEditorSession) -> (r: Result<TasMarkedRangesSnapshot, TasMarkedRangesError>)
        requires
            session@.wf(),
        ensures
            snapshot_taken(*old(self), *final(self), session@, r),
    {
        match self.sync(session) {
            Ok(()) => {},
            Err(e) => return Err(e),
        }
        let context = match &self.context {
            Some(c) => c,
            None => return Err(TasMarkedRangesError::RevisionOverflow),
        };
        Ok(TasMarkedRangesSnapshot {
            expected_project_digest: context.expected_project_digest,
            target_branch_id: clone_string(&context.target_branch_id),
            expected_edit_generation: context.expected_edit_generation,
            expected_frame_count: context.expected_frame_count,
            revision: self.revision,
            ranges: copy_ranges(&self.ranges),
        })
    }

    /// The ranges to show: those of the session's current context, else none.
    pub fn visible_ranges(&self, session: &TasEditorSession) -> (r: Vec<(u64, u64)>)
        requires
            session@.wf(),
        ensures
            r@ == if opt_context_view(self.context) == Some(session_context(session@)) { self.ranges@ } else { Seq::empty() },
    {
        let context = TasMarkedRangesContext::from_session(session);
        let same = match &self.context {
            Some(c) => c.same_as(&context),
            None => false,
        };
        if same {
            copy_ranges(&self.ranges)
        } else {
            Vec::new()
        }
    }

    /// Whether `snapshot` describes the state as it stands.
    pub fn matches_snapshot(&self, snapshot: &TasMarkedRangesSnapshot) -> (r: bool)
        ensures
            r == (match self.context {
                Some(c) => c.expected_project_digest == snapshot.expected_project_digest
                    && c.target_branch_id@ == snapshot.target_branch_id@
                    && c.expected_edit_generation == snapshot.expected_edit_generation
                    && c.expected_frame_count == snapshot.expected_frame_count,
                None => false,
            } && self.revision == snapshot.revision && self.ranges@ == snapshot.ranges@),
    {
        let context_ok = match &self.context {
            Some(c) => c.expected_project_digest == snapshot.expected_project_digest
                && string_eq(&c.target_branch_id, &snapshot.target_branch_id)
                && c.expected_edit_generation == snapshot.expected_edit_generation
                && c.expected_frame_count == snapshot.expected_frame_count,
            None => false,
        };
        context_ok && self.revision == snapshot.revision && ranges_eq(&self.ranges, &snapshot.ranges)
    }

    /// Replaces the ranges under the next revision.
    pub fn replace_ranges(&mut self, ranges: Vec<(u64, u64)>) -> (r: Result<(), TasMarkedRangesError>)
        ensures
            opt_context_view(final(self).context) == opt_context_view(old(self).context),
            match r {
                Ok(()) => old(self).revision < u64::MAX && final(self).revision == old(self).revision + 1
                    && final(self).ranges@ == ranges@,
                Err(e) => e == TasMarkedRangesError::RevisionOverflow && old(self).revision == u64::MAX
                    && final(self).revision == old(self).revision && final(self).ranges@ == old(self).ranges@,
            },
    {
        let revision = match self.next_revision() {
            Ok(r) => r,
            Err(e) => return Err(e),
        };
        self.ranges = ranges;
        self.revision = revision;
        Ok(())
    }

    /// Rebinds the ranges to the session after an edit applied through them.
    pub fn refresh_after_apply(&mut self, session: &TasEditorSession, revision: u64, ranges: Vec<(u64, u64)>)
        requires
            session@.wf(),
        ensures
            opt_context_view(final(self).context) == Some(session_context(session@)),
            final(self).revision == revision,
            final(self).ranges@ == ranges@,
    {
        self.context = Some(TasMarkedRangesContext::from_session(session));
        self.revision = revision;
        self.ranges = ranges;
    }
}

} // verus!
