//! Markers and annotations: edits drafted against one project state, and the
//! lists of them shown for the selected branch.
use vstd::prelude::*;

use crate::editor::{TasEditorError, TasEditorWindowState};
use crate::input::TasDigest;
use crate::project::{
    AnnotationModel, MarkerModel, TasAnnotation, TasMarker, annotations_view, clone_annotations,
    clone_markers, markers_view,
};
use crate::session::{SessionModel, SnapshotModel, TasEditError, TasEditorSession};
use crate::text::{push_str, str_eq, string_eq, string_of};

verus! {

/// A change to the markers or annotations.
#[derive(Clone, Debug, PartialEq, Eq)]
pub enum TasMetadataMutation {
    UpsertMarker { original_id: Option<String>, marker: TasMarker },
    RemoveMarker { branch_id: String, id: String },
    UpsertAnnotation { original_id: Option<String>, annotation: TasAnnotation },
    RemoveAnnotation { branch_id: String, id: String },
}

/// A marker or annotation edit drafted against one project state.
#[derive(Clone, Debug, PartialEq, Eq)]
pub struct TasMetadataAction {
    pub expected_project_digest: TasDigest,
    pub mutation: TasMetadataMutation,
}

impl TasMetadataAction {
    pub fn new(expected_project_digest: TasDigest, mutation: TasMetadataMutation) -> (r: Self)
        ensures
            r.expected_project_digest == expected_project_digest,
            r.mutation == mutation,
    {
        TasMetadataAction { expected_project_digest, mutation }
    }
}

/// Why a marker or annotation edit was refused.
#[derive(Clone, Copy, Debug, PartialEq, Eq, Structural)]
pub enum TasMetadataError {
    BranchChanged,
    MissingMarker,
    MissingAnnotation,
}

impl TasMetadataError {
    /// The sentence shown for the error.
    pub open spec fn message_text(&self) -> Seq<char> {
        match self {
            TasMetadataError::BranchChanged => "TAS branch selection changed; retry the marker/annotation edit"@,
            TasMetadataError::MissingMarker => "the TAS marker no longer exists on this branch"@,
            TasMetadataError::MissingAnnotation => "the TAS annotation no longer exists on this branch"@,
        }
    }

    pub fn message(&self) -> (r: &'static str)
        ensures
            r@ == self.message_text(),
    {
        match self {
            TasMetadataError::BranchChanged => "TAS branch selection changed; retry the marker/annotation edit",
            TasMetadataError::MissingMarker => "the TAS marker no longer exists on this branch",
            TasMetadataError::MissingAnnotation => "the TAS annotation no longer exists on this branch",
        }
    }
}

/// Accepts an edit aimed at the selected branch only.
pub fn ensure_selected_branch(selected: &str, action_branch: &str) -> (r: Result<(), TasMetadataError>)
    ensures
        r is Ok == (selected@ == action_branch@),
        r is Err ==> r == Err::<(), TasMetadataError>(TasMetadataError::BranchChanged),
{
    if str_eq(selected, action_branch) {
        Ok(())
    } else {
        Err(TasMetadataError::BranchChanged)
    }
}

/// Index of the first marker on `branch_id` called `id`.
pub fn find_marker(markers: &Vec<TasMarker>, branch_id: &str, id: &str) -> (r: Result<usize, TasMetadataError>)
    ensures
        match r {
            Ok(k) => k < markers@.len() && markers@[k as int].branch_id@ == branch_id@ && markers@[k as int].id@ == id@
                && forall|j: int| 0 <= j < k ==> !((#[trigger] markers@[j]).branch_id@ == branch_id@ && markers@[j].id@ == id@),
            Err(e) => e == TasMetadataError::MissingMarker
                && forall|j: int| 0 <= j < markers@.len() ==> !((#[trigger] markers@[j]).branch_id@ == branch_id@ && markers@[j].id@ == id@),
        },
{
    let mut i: usize = 0;
    while i < markers.len()
        invariant
            0 <= i <= markers@.len(),
            forall|j: int| 0 <= j < i ==> !((#[trigger] markers@[j]).branch_id@ == branch_id@ && markers@[j].id@ == id@),
        decreases markers@.len() - i,
    {
        if str_eq(markers[i].branch_id.as_str(), branch_id) && str_eq(markers[i].id.as_str(), id) {
            return Ok(i);
        }
        i += 1;
    }
    Err(TasMetadataError::MissingMarker)
}

/// Index of the first annotation on `branch_id` called `id`.
pub fn find_annotation(annotations: &Vec<TasAnnotation>, branch_id: &str, id: &str) -> (r: Result<usize, TasMetadataError>)
    ensures
        match r {
            Ok(k) => k < annotations@.len() && annotations@[k as int].branch_id@ == branch_id@ && annotations@[k as int].id@ == id@
                && forall|j: int| 0 <= j < k ==> !((#[trigger] annotations@[j]).branch_id@ == branch_id@ && annotations@[j].id@ == id@),
            Err(e) => e == TasMetadataError::MissingAnnotation
                && forall|j: int| 0 <= j < annotations@.len() ==> !((#[trigger] annotations@[j]).branch_id@ == branch_id@ && annotations@[j].id@ == id@),
        },
{
    let mut i: usize = 0;
    while i < annotations.len()
        invariant
            0 <= i <= annotations@.len(),
            forall|j: int| 0 <= j < i ==> !((#[trigger] annotations@[j]).branch_id@ == branch_id@ && annotations@[j].id@ == id@),
        decreases annotations@.len() - i,
    {
        if str_eq(annotations[i].branch_id.as_str(), branch_id) && str_eq(annotations[i].id.as_str(), id) {
            return Ok(i);
        }
        i += 1;
    }
    Err(TasMetadataError::MissingAnnotation)
}

/// `text` cut to 64 characters, with an ellipsis when it was longer.
pub open spec fn spec_short_text(text: Seq<char>) -> Seq<char> {
    if text.len() > 64 {
        text.take(64) + "…"@
    } else {
        text
    }
}

/// `text` cut to 64 characters, with an ellipsis when it was longer.
pub fn short_text(text: &str) -> (r: String)
    ensures
        r@ == spec_short_text(text@),
{
    let n = text.unicode_len();
    if n > 64 {
        let mut s = string_of(text.substring_char(0, 64));
        push_str(&mut s, "…");
        proof {
            assert(s@ =~= spec_short_text(text@));
        }
        s
    } else {
        string_of(text)
    }
}

/// Indices of the entries among the first `n` whose branch is `branch_id`.
pub open spec fn marker_indices_on(markers: Seq<MarkerModel>, branch_id: Seq<char>, n: int) -> Seq<usize>
    decreases n,
{
    if n <= 0 {
        Seq::empty()
    } else {
        let rest = marker_indices_on(markers, branch_id, n - 1);
        if markers[n - 1].branch_id == branch_id { rest.push((n - 1) as usize) } else { rest }
    }
}

/// Indices of the annotations among the first `n` whose branch is `branch_id`.
pub open spec fn annotation_indices_on(annotations: Seq<AnnotationModel>, branch_id: Seq<char>, n: int) -> Seq<usize>
    decreases n,
{
    if n <= 0 {
        Seq::empty()
    } else {
        let rest = annotation_indices_on(annotations, branch_id, n - 1);
        if annotations[n - 1].branch_id == branch_id { rest.push((n - 1) as usize) } else { rest }
    }
}

/// The project state the metadata lists were drawn from.
#[derive(Clone, Debug, PartialEq, Eq)]
pub struct TasMetadataContext {
    pub manual_path: String,
    pub project_id: String,
    pub branch_id: String,
    pub edit_generation: u64,
}

/// The form for adding or editing a marker.
#[derive(Debug)]
pub struct TasMarkerDraft {
    pub original_id: Option<String>,
    pub id: String,
    pub name: String,
    pub cursor: u64,
}

/// The form for adding or editing an annotation.
#[derive(Debug)]
pub struct TasAnnotationDraft {
    pub original_id: Option<String>,
    pub id: String,
    pub kind: String,
    pub text: String,
    pub start: u64,
    pub length: u64,
}

/// An empty marker form at row `cursor`.
pub open spec fn fresh_marker_draft(d: TasMarkerDraft, cursor: u64) -> bool {
    d.original_id is None && d.id@.len() == 0 && d.name@.len() == 0 && d.cursor == cursor
}

/// An empty annotation form: a note of one row at `start`.
pub open spec fn fresh_annotation_draft(d: TasAnnotationDraft, kind: Seq<char>, start: u64, length: u64) -> bool {
    d.original_id is None && d.id@.len() == 0 && d.kind@ == kind && d.text@.len() == 0 && d.start == start
        && d.length == length
}

impl TasMarkerDraft {
    /// An empty marker form at row `cursor`.
    pub fn at(cursor: u64) -> (r: Self)
        ensures
            fresh_marker_draft(r, cursor),
    {
        TasMarkerDraft { original_id: None, id: String::new(), name: String::new(), cursor }
    }
}

impl TasAnnotationDraft {
    /// An annotation form with nothing in it.
    pub fn empty() -> (r: Self)
        ensures
            fresh_annotation_draft(r, Seq::empty(), 0, 0),
    {
        TasAnnotationDraft { original_id: None, id: String::new(), kind: String::new(), text: String::new(), start: 0, length: 0 }
    }

    /// An empty annotation form of `kind` over `length` rows from `start`.
    pub fn with(kind: &str, start: u64, length: u64) -> (r: Self)
        ensures
            fresh_annotation_draft(r, kind@, start, length),
    {
        TasAnnotationDraft { original_id: None, id: String::new(), kind: string_of(kind), text: String::new(), start, length }
    }
}

/// The marker and annotation lists shown for the selected branch, and the
/// forms for adding or editing one.
#[derive(Debug)]
pub struct TasMetadataEditorState {
    pub context: Option<TasMetadataContext>,
    pub marker_indices: Vec<usize>,
    pub annotation_indices: Vec<usize>,
    pub marker: TasMarkerDraft,
    pub annotation: TasAnnotationDraft,
}

impl TasMetadataEditorState {
    pub fn new() -> (r: Self)
        ensures
            r.context is None,
            r.marker_indices@.len() == 0,
            r.annotation_indices@.len() == 0,
            fresh_marker_draft(r.marker, 0),
            fresh_annotation_draft(r.annotation, Seq::empty(), 0, 0),
    {
        TasMetadataEditorState {
            context: None,
            marker_indices: Vec::new(),
            annotation_indices: Vec::new(),
            marker: TasMarkerDraft::at(0),
            annotation: TasAnnotationDraft::empty(),
        }
    }

    /// Forgets the lists so that the next sync rebuilds them.
    pub fn clear(&mut self)
        ensures
            final(self).context is None,
            final(self).marker_indices@.len() == 0,
            final(self).annotation_indices@.len() == 0,
            fresh_marker_draft(final(self).marker, 0),
            fresh_annotation_draft(final(self).annotation, Seq::empty(), 0, 0),
    {
        self.context = None;
        self.marker_indices = Vec::new();
        self.annotation_indices = Vec::new();
        self.marker = TasMarkerDraft::at(0);
        self.annotation = TasAnnotationDraft::empty();
    }

    /// Rebuilds the lists when the project, branch or generation changed.
    pub fn sync_context(&mut self, session: &TasEditorSession)
        requires
            session@.wf(),
        ensures
            final(self).context is Some,
            ({
                let c = final(self).context.unwrap();
                &&& c.manual_path@ == session@.manual_path
                &&& c.project_id@ == session@.current.project.project_id
                &&& c.branch_id@ == session@.branch().id
                &&& c.edit_generation == session@.current.project.edit_generation
            }),
            ({
                let same = match old(self).context {
                    Some(c) => c.manual_path@ == session@.manual_path
                        && c.project_id@ == session@.current.project.project_id
                        && c.branch_id@ == session@.branch().id
                        && c.edit_generation == session@.current.project.edit_generation,
                    None => false,
                };
                same ==> final(self).marker_indices@ == old(self).marker_indices@
                    && final(self).annotation_indices@ == old(self).annotation_indices@
            }),
            ({
                let same = match old(self).context {
                    Some(c) => c.manual_path@ == session@.manual_path
                        && c.project_id@ == session@.current.project.project_id
                        && c.branch_id@ == session@.branch().id
                        && c.edit_generation == session@.current.project.edit_generation,
                    None => false,
                };
                !same ==> final(self).marker_indices@ == marker_indices_on(session@.current.project.markers, session@.branch().id, session@.current.project.markers.len() as int)
                    && final(self).annotation_indices@ == annotation_indices_on(session@.current.project.annotations, session@.branch().id, session@.current.project.annotations.len() as int)
                    && fresh_marker_draft(final(self).marker, session@.cursor())
                    && fresh_annotation_draft(final(self).annotation, "note"@, session@.cursor(), 1)
            }),
            ({
                let same = match old(self).context {
                    Some(c) => c.manual_path@ == session@.manual_path
                        && c.project_id@ == session@.current.project.project_id
                        && c.branch_id@ == session@.branch().id
                        && c.edit_generation == session@.current.project.edit_generation,
                    None => false,
                };
                same ==> final(self).marker == old(self).marker && final(self).annotation == old(self).annotation
            }),
    {
        let project = session.project();
        let branch = session.selected_branch_id();
        let same = match &self.context {
            Some(c) => str_eq(c.manual_path.as_str(), session.manual_path())
                && string_eq(&c.project_id, &project.project_id)
                && str_eq(c.branch_id.as_str(), branch)
                && c.edit_generation == project.edit_generation,
            None => false,
        };
        if same {
            return;
        }
        let ghost mv = markers_view(project.markers@);
        let mut markers: Vec<usize> = Vec::new();
        let mut i: usize = 0;
        while i < project.markers.len()
            invariant
                0 <= i <= project.markers@.len(),
                mv == markers_view(project.markers@),
                markers@ == marker_indices_on(mv, branch@, i as int),
            decreases project.markers@.len() - i,
        {
            proof {
                assert(mv[i as int] == project.markers@[i as int]@);
            }
            if str_eq(project.markers[i].branch_id.as_str(), branch) {
                markers.push(i);
            }
            i += 1;
        }
        let ghost av = annotations_view(project.annotations@);
        let mut annotations: Vec<usize> = Vec::new();
        let mut j: usize = 0;
        while j < project.annotations.len()
            invariant
                0 <= j <= project.annotations@.len(),
                av == annotations_view(project.annotations@),
                annotations@ == annotation_indices_on(av, branch@, j as int),
            decreases project.annotations@.len() - j,
        {
            proof {
                assert(av[j as int] == project.annotations@[j as int]@);
            }
            if str_eq(project.annotations[j].branch_id.as_str(), branch) {
                annotations.push(j);
            }
            j += 1;
        }
        self.marker_indices = markers;
        self.annotation_indices = annotations;
        self.marker = TasMarkerDraft::at(session.cursor());
        self.annotation = TasAnnotationDraft::with("note", session.cursor(), 1);
        self.context = Some(TasMetadataContext {
            manual_path: string_of(session.manual_path()),
            project_id: string_of(project.project_id.as_str()),
            branch_id: string_of(branch),
            edit_generation: project.edit_generation,
        });
    }
}

/// The marker list after an upsert: the marker replaces the entry found for
/// `original` (or is appended when there is none).
pub open spec fn upserted<T>(list: Seq<T>, index: Option<int>, item: T) -> Seq<T> {
    match index {
        Some(k) => list.update(k, item),
        None => list.push(item),
    }
}

/// `k` is the first marker on branch `b` called `id`.
pub open spec fn marker_first(m: Seq<MarkerModel>, b: Seq<char>, id: Seq<char>, k: int) -> bool {
    &&& 0 <= k < m.len()
    &&& m[k].branch_id == b && m[k].id == id
    &&& forall|j: int| 0 <= j < k ==> !((#[trigger] m[j]).branch_id == b && m[j].id == id)
}

/// `k` is the first annotation on branch `b` called `id`.
pub open spec fn annotation_first(a: Seq<AnnotationModel>, b: Seq<char>, id: Seq<char>, k: int) -> bool {
    &&& 0 <= k < a.len()
    &&& a[k].branch_id == b && a[k].id == id
    &&& forall|j: int| 0 <= j < k ==> !((#[trigger] a[j]).branch_id == b && a[j].id == id)
}

/// The markers and annotations of `q` are those of `p` after `mutation`.
pub open spec fn metadata_applied(p: crate::project::ProjectModel, q: crate::project::ProjectModel, mutation: TasMetadataMutation) -> bool {
    match mutation {
        TasMetadataMutation::UpsertMarker { original_id, marker } => q.annotations == p.annotations && match original_id {
            Some(o) => exists|k: int| marker_first(p.markers, marker.branch_id@, o@, k) && q.markers == p.markers.update(k, marker@),
            None => q.markers == p.markers.push(marker@),
        },
        TasMetadataMutation::RemoveMarker { branch_id, id } => q.annotations == p.annotations
            && exists|k: int| marker_first(p.markers, branch_id@, id@, k) && q.markers == p.markers.remove(k),
        TasMetadataMutation::UpsertAnnotation { original_id, annotation } => q.markers == p.markers && match original_id {
            Some(o) => exists|k: int| annotation_first(p.annotations, annotation.branch_id@, o@, k)
                && q.annotations == p.annotations.update(k, annotation@),
            None => q.annotations == p.annotations.push(annotation@),
        },
        TasMetadataMutation::RemoveAnnotation { branch_id, id } => q.markers == p.markers
            && exists|k: int| annotation_first(p.annotations, branch_id@, id@, k) && q.annotations == p.annotations.remove(k),
    }
}

/// The branch a mutation is aimed at.
pub open spec fn metadata_branch(m: TasMetadataMutation) -> Seq<char> {
    match m {
        TasMetadataMutation::UpsertMarker { marker, .. } => marker.branch_id@,
        TasMetadataMutation::RemoveMarker { branch_id, .. } => branch_id@,
        TasMetadataMutation::UpsertAnnotation { annotation, .. } => annotation.branch_id@,
        TasMetadataMutation::RemoveAnnotation { branch_id, .. } => branch_id@,
    }
}

/// The id a mutation reports.
pub open spec fn metadata_id(m: TasMetadataMutation) -> Seq<char> {
    match m {
        TasMetadataMutation::UpsertMarker { marker, .. } => marker.id@,
        TasMetadataMutation::RemoveMarker { id, .. } => id@,
        TasMetadataMutation::UpsertAnnotation { annotation, .. } => annotation.id@,
        TasMetadataMutation::RemoveAnnotation { id, .. } => id@,
    }
}

/// What a mutation did, in words.
pub open spec fn metadata_label(m: TasMetadataMutation) -> Seq<char> {
    match m {
        TasMetadataMutation::UpsertMarker { original_id, .. } => if original_id is Some { "Updated marker"@ } else { "Added marker"@ },
        TasMetadataMutation::RemoveMarker { .. } => "Removed marker"@,
        TasMetadataMutation::UpsertAnnotation { original_id, .. } => if original_id is Some { "Updated annotation"@ } else { "Added annotation"@ },
        TasMetadataMutation::RemoveAnnotation { .. } => "Removed annotation"@,
    }
}

/// `id` as the editor quotes it.
pub open spec fn quoted(id: Seq<char>) -> Seq<char> {
    "\""@ + id + "\""@
}

/// Whether a mutation edits the markers (rather than the annotations).
pub open spec fn edits_markers(m: TasMetadataMutation) -> bool {
    m is UpsertMarker || m is RemoveMarker
}

/// Why a mutation is refused before the edited list is checked, if it is:
/// it names another branch, or the entry it replaces or removes is gone.
pub open spec fn spec_metadata_refusal(s: SessionModel, m: TasMetadataMutation) -> Option<TasEditorError> {
    let p = s.current.project;
    if metadata_branch(m) != s.branch().id {
        Some(TasEditorError::Metadata(TasMetadataError::BranchChanged))
    } else {
        match m {
            TasMetadataMutation::UpsertMarker { original_id, marker } => if original_id is Some
                && !(exists|k: int| marker_first(p.markers, marker.branch_id@, original_id.unwrap()@, k)) {
                Some(TasEditorError::Metadata(TasMetadataError::MissingMarker))
            } else {
                None
            },
            TasMetadataMutation::RemoveMarker { branch_id, id } => if !(exists|k: int| marker_first(p.markers, branch_id@, id@, k)) {
                Some(TasEditorError::Metadata(TasMetadataError::MissingMarker))
            } else {
                None
            },
            TasMetadataMutation::UpsertAnnotation { original_id, annotation } => if original_id is Some
                && !(exists|k: int| annotation_first(p.annotations, annotation.branch_id@, original_id.unwrap()@, k)) {
                Some(TasEditorError::Metadata(TasMetadataError::MissingAnnotation))
            } else {
                None
            },
            TasMetadataMutation::RemoveAnnotation { branch_id, id } => if !(exists|k: int| annotation_first(p.annotations, branch_id@, id@, k)) {
                Some(TasEditorError::Metadata(TasMetadataError::MissingAnnotation))
            } else {
                None
            },
        }
    }
}

/// The markers and annotations after a mutation that is not refused.
pub open spec fn metadata_lists(p: crate::project::ProjectModel, m: TasMetadataMutation) -> (Seq<MarkerModel>, Seq<AnnotationModel>) {
    match m {
        TasMetadataMutation::UpsertMarker { original_id, marker } => (match original_id {
            Some(o) => p.markers.update(choose|k: int| marker_first(p.markers, marker.branch_id@, o@, k), marker@),
            None => p.markers.push(marker@),
        }, p.annotations),
        TasMetadataMutation::RemoveMarker { branch_id, id } =>
            (p.markers.remove(choose|k: int| marker_first(p.markers, branch_id@, id@, k)), p.annotations),
        TasMetadataMutation::UpsertAnnotation { original_id, annotation } => (p.markers, match original_id {
            Some(o) => p.annotations.update(choose|k: int| annotation_first(p.annotations, annotation.branch_id@, o@, k), annotation@),
            None => p.annotations.push(annotation@),
        }),
        TasMetadataMutation::RemoveAnnotation { branch_id, id } =>
            (p.markers, p.annotations.remove(choose|k: int| annotation_first(p.annotations, branch_id@, id@, k))),
    }
}

proof fn lemma_no_marker_first(v: Seq<TasMarker>, b: Seq<char>, id: Seq<char>)
    requires
        forall|j: int| 0 <= j < v.len() ==> !((#[trigger] v[j]).branch_id@ == b && v[j].id@ == id),
    ensures
        !(exists|k: int| marker_first(markers_view(v), b, id, k)),
{
    assert forall|k: int| !marker_first(markers_view(v), b, id, k) by {
        if 0 <= k < v.len() {
            assert(markers_view(v)[k] == v[k]@);
        }
    }
}

proof fn lemma_no_annotation_first(v: Seq<TasAnnotation>, b: Seq<char>, id: Seq<char>)
    requires
        forall|j: int| 0 <= j < v.len() ==> !((#[trigger] v[j]).branch_id@ == b && v[j].id@ == id),
    ensures
        !(exists|k: int| annotation_first(annotations_view(v), b, id, k)),
{
    assert forall|k: int| !annotation_first(annotations_view(v), b, id, k) by {
        if 0 <= k < v.len() {
            assert(annotations_view(v)[k] == v[k]@);
        }
    }
}

proof fn lemma_marker_first_unique(m: Seq<MarkerModel>, b: Seq<char>, id: Seq<char>, k: int)
    requires
        marker_first(m, b, id, k),
    ensures
        (choose|j: int| marker_first(m, b, id, j)) == k,
{
    let j = choose|j: int| marker_first(m, b, id, j);
    assert(marker_first(m, b, id, j));
    if j < k {
        assert(!(m[j].branch_id == b && m[j].id == id));
    } else if k < j {
        assert(!(m[k].branch_id == b && m[k].id == id));
    }
}

proof fn lemma_annotation_first_unique(a: Seq<AnnotationModel>, b: Seq<char>, id: Seq<char>, k: int)
    requires
        annotation_first(a, b, id, k),
    ensures
        (choose|j: int| annotation_first(a, b, id, j)) == k,
{
    let j = choose|j: int| annotation_first(a, b, id, j);
    assert(annotation_first(a, b, id, j));
    if j < k {
        assert(!(a[j].branch_id == b && a[j].id == id));
    } else if k < j {
        assert(!(a[k].branch_id == b && a[k].id == id));
    }
}

/// `n` is the editor after the mutation `m` of session `s`, answered `r`:
/// an edited list the project refuses is an error; an unchanged list is
/// reported as no change; otherwise the edit is recorded, the preview goes
/// and the lists are rebuilt.
pub open spec fn metadata_result(
    o: TasEditorWindowState,
    n: TasEditorWindowState,
    m: TasMetadataMutation,
    r: Result<String, TasEditorError>,
) -> bool {
    let s = o.session.unwrap()@;
    let p = s.current.project;
    let lists = metadata_lists(p, m);
    let acceptable = if edits_markers(m) {
        crate::project::markers_acceptable(p, lists.0)
    } else {
        crate::project::annotations_acceptable(p, lists.1)
    };
    let same = lists.0 == p.markers && lists.1 == p.annotations;
    if !acceptable {
        r == Err::<String, TasEditorError>(TasEditorError::Edit(
            if edits_markers(m) { TasEditError::InvalidMarker } else { TasEditError::InvalidAnnotation },
        )) && n.session is Some && n.session.unwrap()@ == s
    } else if same {
        r is Ok && r->Ok_0@ == "No marker/annotation change for "@ + quoted(metadata_id(m))
            && n.session is Some && n.session.unwrap()@ == s
    } else if s.next_generation == u64::MAX {
        r == Err::<String, TasEditorError>(TasEditorError::Edit(TasEditError::GenerationExhausted))
            && n.session is Some && n.session.unwrap()@ == s
    } else {
        &&& r is Ok
        &&& r->Ok_0@ == metadata_label(m) + " "@ + quoted(metadata_id(m))
        &&& n.session is Some
        &&& s.committed(n.session.unwrap()@, SnapshotModel {
            project: crate::project::ProjectModel {
                markers: lists.0,
                annotations: lists.1,
                edit_generation: s.next_generation,
                ..p
            },
            ..s.current
        })
        &&& n.execution_preview is None
        &&& n.metadata_editor.context is None
    }
}

/// What a marker or annotation edit did.
pub open spec fn metadata_outcome(o: TasEditorWindowState, n: TasEditorWindowState, action: TasMetadataAction, r: Result<String, TasEditorError>) -> bool {
    &&& (n.recording == o.recording)
    &&& (o.session is None ==> r == Err::<String, TasEditorError>(TasEditorError::NoProject) && n == o)
    &&& (o.session is Some && action.expected_project_digest != TasDigest(o.session.unwrap()@.current.project.edit_generation)
                    ==> r == Err::<String, TasEditorError>(TasEditorError::StaleProject) && n == o)
    &&& (o.session is Some && action.expected_project_digest == TasDigest(o.session.unwrap()@.current.project.edit_generation)
                    && spec_metadata_refusal(o.session.unwrap()@, action.mutation) is Some
                    ==> r == Err::<String, TasEditorError>(spec_metadata_refusal(o.session.unwrap()@, action.mutation).unwrap())
                        && n == o)
    &&& (o.session is Some && action.expected_project_digest == TasDigest(o.session.unwrap()@.current.project.edit_generation)
                    && spec_metadata_refusal(o.session.unwrap()@, action.mutation) is None
                    ==> metadata_result(o, n, action.mutation, r))
    &&& (r is Err ==> (o.session is Some ==> n.session is Some
                    && n.session.unwrap()@ == o.session.unwrap()@))
    &&& (r is Ok ==> o.session is Some && n.session is Some
                    && n.session.unwrap()@.current.project.branches == o.session.unwrap()@.current.project.branches
                    && metadata_applied(o.session.unwrap()@.current.project, n.session.unwrap()@.current.project, action.mutation))
}

impl TasEditorWindowState {
    /// Applies a marker or annotation edit drafted against the current project
    /// state and the selected branch.
    #[verifier::spinoff_prover]
    #[verifier::rlimit(100)]
    pub fn apply_metadata_action(&mut self, action: TasMetadataAction) -> (r: Result<String, TasEditorError>)
        requires
            old(self).wf(),
        ensures
            final(self).wf(),
            metadata_outcome(*old(self), *final(self), action, r),
    {
        let session = match &self.session {
            Some(s) => s,
            None => return Err(TasEditorError::NoProject),
        };
        if session.project_content_digest() != action.expected_project_digest {
            return Err(TasEditorError::StaleProject);
        }
        let ghost s0 = session@;
        let selected = string_of(session.selected_branch_id());
        let project = session.project();
        proof {
            assert(markers_view(project.markers@) == s0.current.project.markers);
            assert(annotations_view(project.annotations@) == s0.current.project.annotations);
        }
        let markers_update: Option<Vec<TasMarker>>;
        let annotations_update: Option<Vec<TasAnnotation>>;
        let label: &'static str;
        let id_text: String;
        match &action.mutation {
            TasMetadataMutation::UpsertMarker { original_id, marker } => {
                match ensure_selected_branch(selected.as_str(), marker.branch_id.as_str()) {
                    Ok(()) => {},
                    Err(e) => return Err(TasEditorError::Metadata(e)),
                }
                let mut markers = clone_markers(&project.markers);
                let ghost before = markers@;
                match original_id {
                    Some(original) => {
                        let index = match find_marker(&markers, marker.branch_id.as_str(), original.as_str()) {
                            Ok(k) => k,
                            Err(e) => {
                                proof {
                                    lemma_no_marker_first(markers@, marker.branch_id@, original@);
                                }
                                return Err(TasEditorError::Metadata(e));
                            },
                        };
                        markers.set(index, marker.clone_marker());
                        proof {
                            assert(markers_view(markers@) =~= markers_view(before).update(index as int, marker@));
                            assert(marker_first(markers_view(before), marker.branch_id@, original@, index as int));
                            lemma_marker_first_unique(markers_view(before), marker.branch_id@, original@, index as int);
                        }
                        label = "Updated marker";
                    },
                    None => {
                        markers.push(marker.clone_marker());
                        proof {
                            assert(markers_view(markers@) =~= markers_view(before).push(marker@));
                        }
                        label = "Added marker";
                    },
                }
                id_text = crate::text::clone_string(&marker.id);
                markers_update = Some(markers);
                annotations_update = None;
            },
            TasMetadataMutation::RemoveMarker { branch_id, id } => {
                match ensure_selected_branch(selected.as_str(), branch_id.as_str()) {
                    Ok(()) => {},
                    Err(e) => return Err(TasEditorError::Metadata(e)),
                }
                let mut markers = clone_markers(&project.markers);
                let ghost before = markers@;
                let index = match find_marker(&markers, branch_id.as_str(), id.as_str()) {
                    Ok(k) => k,
                    Err(e) => {
                        proof {
                            lemma_no_marker_first(markers@, branch_id@, id@);
                        }
                        return Err(TasEditorError::Metadata(e));
                    },
                };
                markers.remove(index);
                proof {
                    assert(markers_view(markers@) =~= markers_view(before).remove(index as int));
                    assert(marker_first(markers_view(before), branch_id@, id@, index as int));
                    lemma_marker_first_unique(markers_view(before), branch_id@, id@, index as int);
                }
                label = "Removed marker";
                id_text = crate::text::clone_string(id);
                markers_update = Some(markers);
                annotations_update = None;
            },
            TasMetadataMutation::UpsertAnnotation { original_id, annotation } => {
                match ensure_selected_branch(selected.as_str(), annotation.branch_id.as_str()) {
                    Ok(()) => {},
                    Err(e) => return Err(TasEditorError::Metadata(e)),
                }
                let mut annotations = clone_annotations(&project.annotations);
                let ghost before = annotations@;
                match original_id {
                    Some(original) => {
                        let index = match find_annotation(&annotations, annotation.branch_id.as_str(), original.as_str()) {
                            Ok(k) => k,
                            Err(e) => {
                                proof {
                                    lemma_no_annotation_first(annotations@, annotation.branch_id@, original@);
                                }
                                return Err(TasEditorError::Metadata(e));
                            },
                        };
                        annotations.set(index, annotation.clone_annotation());
                        proof {
                            assert(annotations_view(annotations@) =~= annotations_view(before).update(index as int, annotation@));
                            assert(annotation_first(annotations_view(before), annotation.branch_id@, original@, index as int));
                            lemma_annotation_first_unique(annotations_view(before), annotation.branch_id@, original@, index as int);
                        }
                        label = "Updated annotation";
                    },
                    None => {
                        annotations.push(annotation.clone_annotation());
                        proof {
                            assert(annotations_view(annotations@) =~= annotations_view(before).push(annotation@));
                        }
                        label = "Added annotation";
                    },
                }
                id_text = crate::text::clone_string(&annotation.id);
                markers_update = None;
                annotations_update = Some(annotations);
            },
            TasMetadataMutation::RemoveAnnotation { branch_id, id } => {
                match ensure_selected_branch(selected.as_str(), branch_id.as_str()) {
                    Ok(()) => {},
                    Err(e) => return Err(TasEditorError::Metadata(e)),
                }
                let mut annotations = clone_annotations(&project.annotations);
                let ghost before = annotations@;
                let index = match find_annotation(&annotations, branch_id.as_str(), id.as_str()) {
                    Ok(k) => k,
                    Err(e) => {
                        proof {
                            lemma_no_annotation_first(annotations@, branch_id@, id@);
                        }
                        return Err(TasEditorError::Metadata(e));
                    },
                };
                annotations.remove(index);
                proof {
                    assert(annotations_view(annotations@) =~= annotations_view(before).remove(index as int));
                    assert(annotation_first(annotations_view(before), branch_id@, id@, index as int));
                    lemma_annotation_first_unique(annotations_view(before), branch_id@, id@, index as int);
                }
                label = "Removed annotation";
                id_text = crate::text::clone_string(id);
                markers_update = None;
                annotations_update = Some(annotations);
            },
        }
        let mut session = match self.session.take() {
            Some(s) => s,
            None => return Err(TasEditorError::NoProject),
        };
        let ghost before = session@;
        let outcome = match markers_update {
            Some(m) => session.replace_markers(m),
            None => match annotations_update {
                Some(a) => session.replace_annotations(a),
                None => Ok(crate::session::TasEditOutcome { changed: false }),
            },
        };
        match outcome {
            Ok(o) => {
                proof {
                    crate::editor::lemma_recording_stays_ok(self.recording, before, session@);
                }
                self.session = Some(session);
                let mut message = if o.changed {
                    let mut m = string_of(label);
                    push_str(&mut m, " ");
                    m
                } else {
                    string_of("No marker/annotation change for ")
                };
                push_str(&mut message, "\"");
                push_str(&mut message, id_text.as_str());
                push_str(&mut message, "\"");
                proof {
                    if o.changed {
                        assert(message@ =~= metadata_label(action.mutation) + " "@ + quoted(metadata_id(action.mutation)));
                    } else {
                        assert(message@ =~= "No marker/annotation change for "@ + quoted(metadata_id(action.mutation)));
                    }
                }
                if o.changed {
                    self.execution_preview = None;
                    self.metadata_editor.clear();
                }
                Ok(message)
            },
            Err(e) => {
                self.session = Some(session);
                Err(TasEditorError::Edit(e))
            },
        }
    }
}

} // verus!
