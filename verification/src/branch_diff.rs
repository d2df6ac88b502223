//! The branch comparison panel's state: which two branches are compared for
//! which project state, the result cached for that request, and the one
//! background comparison that may be running. The comparison itself runs on
//! the host; this state decides when to start one, whether its result still
//! answers the current request, and what the panel shows.
use vstd::prelude::*;

use crate::input::TasDigest;
use crate::session::{SessionModel, TasEditorSession};
use crate::summaries::{default_target_branch_id, default_target_ok};
use crate::text::{clone_string, string_eq};

verus! {

/// The request a comparison answers: one project state and two branches.
#[derive(Clone, Debug, PartialEq, Eq)]
pub struct BranchDiffRequestKey {
    pub project_digest: TasDigest,
    pub source_branch_id: String,
    pub target_branch_id: String,
}

pub struct KeyModel {
    pub digest: TasDigest,
    pub source: Seq<char>,
    pub target: Seq<char>,
}

impl View for BranchDiffRequestKey {
    type V = KeyModel;

    open spec fn view(&self) -> KeyModel {
        KeyModel { digest: self.project_digest, source: self.source_branch_id@, target: self.target_branch_id@ }
    }
}

pub open spec fn opt_key_view(k: Option<BranchDiffRequestKey>) -> Option<KeyModel> {
    match k {
        Some(x) => Some(x@),
        None => None,
    }
}

pub open spec fn opt_string_view(s: Option<String>) -> Option<Seq<char>> {
    match s {
        Some(x) => Some(x@),
        None => None,
    }
}

impl BranchDiffRequestKey {
    /// Whether two requests are the same.
    pub fn same_as(&self, other: &Self) -> (r: bool)
        ensures
            r == (self@ == other@),
    {
        self.project_digest == other.project_digest && string_eq(&self.source_branch_id, &other.source_branch_id)
            && string_eq(&self.target_branch_id, &other.target_branch_id)
    }

    pub fn clone_key(&self) -> (r: Self)
        ensures
            r@ == self@,
    {
        BranchDiffRequestKey {
            project_digest: self.project_digest,
            source_branch_id: clone_string(&self.source_branch_id),
            target_branch_id: clone_string(&self.target_branch_id),
        }
    }
}

/// Whether two optional requests are the same.
pub fn same_request(a: &Option<BranchDiffRequestKey>, b: &Option<BranchDiffRequestKey>) -> (r: bool)
    ensures
        r == (opt_key_view(*a) == opt_key_view(*b)),
{
    match (a, b) {
        (Some(x), Some(y)) => x.same_as(y),
        (None, None) => true,
        _ => false,
    }
}

/// A comparison result kept for the request it answers.
#[derive(Clone, Debug)]
pub struct CachedBranchDiff<D> {
    pub key: BranchDiffRequestKey,
    pub diff: D,
}

/// A comparison that failed, kept for the request it answered.
#[derive(Clone, Debug)]
pub struct FailedBranchDiff {
    pub key: BranchDiffRequestKey,
    pub message: String,
}

/// The comparison running on the host: its request, the generation it was
/// started under, and whether it has been asked to stop.
#[derive(Clone, Debug)]
pub struct InFlightBranchDiff {
    pub key: BranchDiffRequestKey,
    pub generation: u64,
    pub cancel_requested: bool,
}

/// How a background comparison ended.
pub enum BranchDiffWorkerResult<D> {
    Completed(Result<D, String>),
    Cancelled,
}

/// What the panel shows.
#[derive(Clone, Copy, Debug, PartialEq, Eq, Structural)]
pub enum TasBranchDiffPresentationKind {
    NoTarget,
    Pending,
    Failed,
    Ready,
}

/// The comparison panel's state.
pub struct TasBranchDiffEditorState<D> {
    pub source_branch_id: Option<String>,
    pub target_branch_id: Option<String>,
    pub request_key: Option<BranchDiffRequestKey>,
    pub cache: Option<CachedBranchDiff<D>>,
    pub failure: Option<FailedBranchDiff>,
    pub in_flight: Option<InFlightBranchDiff>,
    pub generation: u64,
}

/// The generation after `g`, wrapping.
pub open spec fn next_generation(g: u64) -> u64 {
    if g == u64::MAX { 0 } else { (g + 1) as u64 }
}

/// The running comparison, asked to stop.
pub open spec fn cancelled(f: Option<InFlightBranchDiff>) -> Option<InFlightBranchDiff> {
    match f {
        Some(x) => Some(InFlightBranchDiff { cancel_requested: true, ..x }),
        None => None,
    }
}

/// The request for `source` against `target` on the project state `digest`.
pub open spec fn spec_request_key(source: Option<String>, target: Option<String>, digest: TasDigest) -> Option<KeyModel> {
    match (source, target) {
        (Some(s), Some(t)) => Some(KeyModel { digest, source: s@, target: t@ }),
        _ => None,
    }
}

/// `new` is `old` with the request made from its branches on project state
/// `digest`: a new request moves the generation on and asks the running
/// comparison to stop.
pub open spec fn request_updated<D>(old: TasBranchDiffEditorState<D>, new: TasBranchDiffEditorState<D>, digest: TasDigest) -> bool {
    let key = spec_request_key(old.source_branch_id, old.target_branch_id, digest);
    &&& opt_key_view(new.request_key) == key
    &&& new.source_branch_id == old.source_branch_id
    &&& new.target_branch_id == old.target_branch_id
    &&& new.cache == old.cache
    &&& new.failure == old.failure
    &&& if opt_key_view(old.request_key) == key {
        new.generation == old.generation && new.in_flight == old.in_flight
    } else {
        new.generation == next_generation(old.generation) && new.in_flight == cancelled(old.in_flight)
    }
}

/// Whether `target` may be compared with `source` in session `s`.
pub open spec fn target_valid(s: SessionModel, source: Seq<char>, target: Option<String>) -> bool {
    target is Some && target.unwrap()@ != source && s.current.project.has_branch(target.unwrap()@)
}

/// `new` is `old` after taking in how the running comparison ended: the
/// result is kept only if it still answers the current request under the
/// current generation; a new result replaces the failure and a failure
/// replaces the result.
pub open spec fn worker_result_installed<D>(
    old: TasBranchDiffEditorState<D>,
    new: TasBranchDiffEditorState<D>,
    result: BranchDiffWorkerResult<D>,
) -> bool {
    if old.in_flight is None {
        new == old
    } else {
        let f = old.in_flight.unwrap();
        let current = opt_key_view(old.request_key) == Some(f.key@) && old.generation == f.generation;
        &&& new.in_flight is None
        &&& new.source_branch_id == old.source_branch_id
        &&& new.target_branch_id == old.target_branch_id
        &&& new.request_key == old.request_key
        &&& new.generation == old.generation
        &&& if !current {
            new.cache == old.cache && new.failure == old.failure
        } else {
            match result {
                BranchDiffWorkerResult::Completed(Ok(d)) => new.cache == Some(CachedBranchDiff { key: f.key, diff: d })
                    && new.failure is None,
                BranchDiffWorkerResult::Completed(Err(m)) => new.failure == Some(FailedBranchDiff { key: f.key, message: m })
                    && new.cache is None,
                BranchDiffWorkerResult::Cancelled => new.cache == old.cache && new.failure == old.failure,
            }
        }
    }
}

/// A comparison started for a request that has since been replaced never
/// installs its result, whatever it is: the panel keeps what it had, and the
/// running slot is freed.
pub proof fn law_superseded_result_is_dropped<D>(
    before: TasBranchDiffEditorState<D>,
    replaced: TasBranchDiffEditorState<D>,
    digest: TasDigest,
    after: TasBranchDiffEditorState<D>,
    result: BranchDiffWorkerResult<D>,
)
    requires
        before.in_flight is Some,
        before.in_flight.unwrap().generation == before.generation,
        request_updated(before, replaced, digest),
        opt_key_view(replaced.request_key) != opt_key_view(before.request_key),
        worker_result_installed(replaced, after, result),
    ensures
        after.in_flight is None,
        after.cache == before.cache,
        after.failure == before.failure,
        after.request_key == replaced.request_key,
{
}

/// After the panel is cleared, the comparison that was running installs
/// nothing when it ends: the panel shows no target and holds no result.
pub proof fn law_cleared_result_is_dropped<D>(
    cleared: TasBranchDiffEditorState<D>,
    after: TasBranchDiffEditorState<D>,
    result: BranchDiffWorkerResult<D>,
)
    requires
        cleared.request_key is None,
        cleared.cache is None,
        cleared.failure is None,
        worker_result_installed(cleared, after, result),
    ensures
        after.request_key is None,
        after.cache is None,
        after.failure is None,
        after.in_flight is None,
{
}

impl<D> TasBranchDiffEditorState<D> {
    /// Nothing compared, nothing running.
    pub fn new() -> (r: Self)
        ensures
            r.source_branch_id is None,
            r.target_branch_id is None,
            r.request_key is None,
            r.cache is None,
            r.failure is None,
            r.in_flight is None,
            r.generation == 0,
    {
        TasBranchDiffEditorState {
            source_branch_id: None,
            target_branch_id: None,
            request_key: None,
            cache: None,
            failure: None,
            in_flight: None,
            generation: 0,
        }
    }

    fn request_cancellation(&mut self)
        ensures
            final(self).in_flight == cancelled(old(self).in_flight),
            final(self).source_branch_id == old(self).source_branch_id,
            final(self).target_branch_id == old(self).target_branch_id,
            final(self).request_key == old(self).request_key,
            final(self).cache == old(self).cache,
            final(self).failure == old(self).failure,
            final(self).generation == old(self).generation,
    {
        match &mut self.in_flight {
            Some(f) => {
                f.cancel_requested = true;
            },
            None => {},
        }
    }

    /// Forgets the branches, the request and its results; the running
    /// comparison is asked to stop and kept until it ends.
    pub fn clear(&mut self)
        ensures
            final(self).source_branch_id is None,
            final(self).target_branch_id is None,
            final(self).request_key is None,
            final(self).cache is None,
            final(self).failure is None,
            final(self).generation == next_generation(old(self).generation),
            final(self).in_flight == cancelled(old(self).in_flight),
    {
        self.source_branch_id = None;
        self.target_branch_id = None;
        self.request_key = None;
        self.cache = None;
        self.failure = None;
        self.generation = if self.generation == u64::MAX { 0 } else { self.generation + 1 };
        self.request_cancellation();
    }

    /// Makes the request from the branches on the session's project state.
    pub fn update_request_key(&mut self, session: &TasEditorSession)
        ensures
            request_updated(*old(self), *final(self), TasDigest(session@.current.project.edit_generation)),
    {
        let key = match (&self.source_branch_id, &self.target_branch_id) {
            (Some(source), Some(target)) => Some(BranchDiffRequestKey {
                project_digest: session.project_content_digest(),
                source_branch_id: clone_string(source),
                target_branch_id: clone_string(target),
            }),
            _ => None,
        };
        if !same_request(&self.request_key, &key) {
            self.request_key = key;
            self.generation = if self.generation == u64::MAX { 0 } else { self.generation + 1 };
            self.request_cancellation();
        }
    }

    /// Follows the selected branch: a new source compares with its default
    /// target; a target that is the source or no longer exists is replaced
    /// by the default. Then the request is remade.
    pub fn sync_source_and_target(&mut self, session: &TasEditorSession)
        requires
            session@.wf(),
        ensures
            ({
                let s = session@;
                let source = s.branch().id;
                let kept = opt_string_view(old(self).source_branch_id) == Some(source)
                    && target_valid(s, source, old(self).target_branch_id);
                exists|mid: TasBranchDiffEditorState<D>| {
                    &&& #[trigger] request_updated(mid, *final(self), TasDigest(s.current.project.edit_generation))
                    &&& opt_string_view(mid.source_branch_id) == Some(source)
                    &&& (kept ==> mid.target_branch_id == old(self).target_branch_id)
                    &&& (!kept ==> default_target_ok(s, mid.target_branch_id))
                    &&& mid.request_key == old(self).request_key
                    &&& mid.cache == old(self).cache
                    &&& mid.failure == old(self).failure
                    &&& mid.in_flight == old(self).in_flight
                    &&& mid.generation == old(self).generation
                }
            }),
    {
        let source = session.selected_branch_id();
        let same_source = match &self.source_branch_id {
            Some(s) => crate::text::str_eq(s.as_str(), source),
            None => false,
        };
        if !same_source {
            self.source_branch_id = Some(crate::text::string_of(source));
            self.target_branch_id = default_target_branch_id(session);
        } else {
            proof {
                crate::project::lemma_branch_index_of_member(session@.current.project.branches, session@.current.selected);
            }
            let valid = match &self.target_branch_id {
                Some(t) => !crate::text::str_eq(t.as_str(), source) && session.project().branch(t.as_str()).is_some(),
                None => false,
            };
            if !valid {
                self.target_branch_id = default_target_branch_id(session);
            }
        }
        let ghost mid = *self;
        self.update_request_key(session);
        proof {
            assert(request_updated(mid, *self, TasDigest(session@.current.project.edit_generation)));
        }
    }

    /// Compares with `target_branch_id` from now on.
    pub fn set_target(&mut self, session: &TasEditorSession, target_branch_id: String)
        ensures
            opt_string_view(old(self).target_branch_id) == Some(target_branch_id@) ==> *final(self) == *old(self),
            opt_string_view(old(self).target_branch_id) != Some(target_branch_id@) ==> request_updated(
                TasBranchDiffEditorState { target_branch_id: Some(target_branch_id), ..*old(self) },
                *final(self),
                TasDigest(session@.current.project.edit_generation),
            ),
    {
        let same = match &self.target_branch_id {
            Some(t) => string_eq(t, &target_branch_id),
            None => false,
        };
        if !same {
            self.target_branch_id = Some(target_branch_id);
            self.update_request_key(session);
        }
    }

    /// Whether the cache answers the current request.
    pub open spec fn cache_current(self) -> bool {
        self.cache is Some && opt_key_view(self.request_key) == Some(self.cache.unwrap().key@)
    }

    /// Whether the recorded failure answers the current request.
    pub open spec fn failure_current(self) -> bool {
        self.failure is Some && opt_key_view(self.request_key) == Some(self.failure.unwrap().key@)
    }

    /// The request to start a comparison for, if one is needed: nothing runs
    /// and the current request has no result yet.
    pub fn request_to_start(&self) -> (r: Option<BranchDiffRequestKey>)
        ensures
            match r {
                Some(k) => self.in_flight is None && !self.cache_current() && !self.failure_current()
                    && opt_key_view(self.request_key) == Some(k@),
                None => self.in_flight is Some || self.cache_current() || self.failure_current()
                    || self.request_key is None,
            },
    {
        if self.in_flight.is_some() {
            return None;
        }
        let key = match &self.request_key {
            Some(k) => k,
            None => return None,
        };
        let cached = match &self.cache {
            Some(c) => c.key.same_as(key),
            None => false,
        };
        let failed = match &self.failure {
            Some(f) => f.key.same_as(key),
            None => false,
        };
        if cached || failed {
            return None;
        }
        Some(key.clone_key())
    }

    /// Records that the host started a comparison for `key` under the
    /// current generation.
    pub fn record_started(&mut self, key: BranchDiffRequestKey)
        ensures
            final(self).in_flight == Some(InFlightBranchDiff { key, generation: old(self).generation, cancel_requested: false }),
            final(self).source_branch_id == old(self).source_branch_id,
            final(self).target_branch_id == old(self).target_branch_id,
            final(self).request_key == old(self).request_key,
            final(self).cache == old(self).cache,
            final(self).failure == old(self).failure,
            final(self).generation == old(self).generation,
    {
        self.in_flight = Some(InFlightBranchDiff { key, generation: self.generation, cancel_requested: false });
    }

    /// Records that a comparison for `key` could not be started or prepared.
    pub fn record_failure(&mut self, key: BranchDiffRequestKey, message: String)
        ensures
            final(self).failure == Some(FailedBranchDiff { key, message }),
            final(self).in_flight == old(self).in_flight,
            final(self).source_branch_id == old(self).source_branch_id,
            final(self).target_branch_id == old(self).target_branch_id,
            final(self).request_key == old(self).request_key,
            final(self).cache == old(self).cache,
            final(self).generation == old(self).generation,
    {
        self.failure = Some(FailedBranchDiff { key, message });
    }

    /// Takes in how the running comparison ended. Its result is kept only if
    /// it still answers the current request under the current generation; a
    /// new result replaces the failure and a failure replaces the result.
    pub fn install_worker_result(&mut self, result: BranchDiffWorkerResult<D>)
        ensures
            worker_result_installed(*old(self), *final(self), result),
    {
        let f = match self.in_flight.take() {
            Some(f) => f,
            None => return,
        };
        let current = match &self.request_key {
            Some(k) => k.same_as(&f.key),
            None => false,
        } && self.generation == f.generation;
        if !current {
            return;
        }
        match result {
            BranchDiffWorkerResult::Completed(Ok(diff)) => {
                self.cache = Some(CachedBranchDiff { key: f.key, diff });
                self.failure = None;
            },
            BranchDiffWorkerResult::Completed(Err(message)) => {
                self.failure = Some(FailedBranchDiff { key: f.key, message });
                self.cache = None;
            },
            BranchDiffWorkerResult::Cancelled => {},
        }
    }

    /// Whether the running comparison has been asked to stop.
    pub fn cancel_requested(&self) -> (r: bool)
        ensures
            r == (self.in_flight is Some && self.in_flight.unwrap().cancel_requested),
    {
        match &self.in_flight {
            Some(f) => f.cancel_requested,
            None => false,
        }
    }

    /// What the panel shows: no target, the current result, the current
    /// failure, or a comparison still to come.
    pub fn presentation_kind(&self) -> (r: TasBranchDiffPresentationKind)
        ensures
            r == if self.request_key is None {
                TasBranchDiffPresentationKind::NoTarget
            } else if self.cache_current() {
                TasBranchDiffPresentationKind::Ready
            } else if self.failure_current() {
                TasBranchDiffPresentationKind::Failed
            } else {
                TasBranchDiffPresentationKind::Pending
            },
    {
        let key = match &self.request_key {
            Some(k) => k,
            None => return TasBranchDiffPresentationKind::NoTarget,
        };
        let cached = match &self.cache {
            Some(c) => c.key.same_as(key),
            None => false,
        };
        if cached {
            return TasBranchDiffPresentationKind::Ready;
        }
        let failed = match &self.failure {
            Some(f) => f.key.same_as(key),
            None => false,
        };
        if failed {
            TasBranchDiffPresentationKind::Failed
        } else {
            TasBranchDiffPresentationKind::Pending
        }
    }

    /// The result that answers the current request, if any.
    pub fn cached_diff(&self) -> (r: Option<&D>)
        ensures
            match r {
                Some(d) => self.cache_current() && *d == self.cache.unwrap().diff,
                None => !self.cache_current(),
            },
    {
        let key = match &self.request_key {
            Some(k) => k,
            None => return None,
        };
        match &self.cache {
            Some(c) => if c.key.same_as(key) { Some(&c.diff) } else { None },
            None => None,
        }
    }

    /// The failure that answers the current request, if any.
    pub fn failure_message(&self) -> (r: Option<&String>)
        ensures
            match r {
                Some(m) => self.failure_current() && *m == self.failure.unwrap().message,
                None => !self.failure_current(),
            },
    {
        let key = match &self.request_key {
            Some(k) => k,
            None => return None,
        };
        match &self.failure {
            Some(f) => if f.key.same_as(key) { Some(&f.message) } else { None },
            None => None,
        }
    }
}

} // verus!
