//! A movie project: its branches of input, the tree that links them, and
//! the markers and annotations placed on them.
use vstd::prelude::*;

use crate::identity::{IdentityModel, TasProjectIdentity};
use crate::input::{TasDigest, TasInputFrame, neutral_frame};
use crate::limits::MAX_PROJECT_FRAMES;
use crate::pattern::{TasInputPattern, TasInputSpan, TasPatternError, copy_frames, spans_of};
use crate::replay::{ReplayEvent, ReplayEventModel, clone_events, events_view};
use crate::text::{clone_string, is_blank, is_space, lemma_blank_trim, spec_trim, str_eq, string_eq, string_of};

verus! {

/// Where a branch was forked from: its parent and the boundary it starts at.
#[derive(Debug, PartialEq, Eq)]
pub struct TasBranchOrigin {
    pub branch_id: String,
    pub fork_cursor: u64,
}

/// One alternative future of the movie.
#[derive(Debug, PartialEq, Eq)]
pub struct TasBranch {
    pub id: String,
    pub name: String,
    pub parent: Option<TasBranchOrigin>,
    /// The input of every frame, in order.
    pub frames: Vec<TasInputFrame>,
    /// Boundary events, ordered by frame.
    pub events: Vec<ReplayEvent>,
    /// Witness of the branch's movie content: two branches of one session with
    /// the same id and revision hold the same frames and events.
    pub revision: u64,
}

/// A named boundary on a branch.
#[derive(Clone, Debug, PartialEq, Eq)]
pub struct TasMarker {
    pub id: String,
    pub branch_id: String,
    pub cursor: u64,
    pub name: String,
}

/// A note attached to a run of frames on a branch.
#[derive(Clone, Debug, PartialEq, Eq)]
pub struct TasAnnotation {
    pub id: String,
    pub branch_id: String,
    pub start: u64,
    pub length: u64,
    pub kind: String,
    pub text: String,
}

/// A binary asset of the project (such as a recorded camera frame), named by its digest.
#[derive(Clone, Debug, PartialEq, Eq)]
pub struct TasAsset {
    pub digest: TasDigest,
    pub bytes: Vec<u8>,
}

/// A whole movie project.
#[derive(Debug, PartialEq, Eq)]
pub struct TasProject {
    pub project_id: String,
    pub identity: TasProjectIdentity,
    pub branches: Vec<TasBranch>,
    pub markers: Vec<TasMarker>,
    pub annotations: Vec<TasAnnotation>,
    pub assets: Vec<TasAsset>,
    /// Witness of the whole project's content (see `TasEditorSession`).
    pub edit_generation: u64,
    /// How many recorded edits changed a branch's movie (its input or events).
    pub rerecord_count: u64,
}

pub struct OriginModel {
    pub branch_id: Seq<char>,
    pub fork_cursor: u64,
}

pub struct BranchModel {
    pub id: Seq<char>,
    pub name: Seq<char>,
    pub parent: Option<OriginModel>,
    pub frames: Seq<TasInputFrame>,
    pub events: Seq<ReplayEventModel>,
    pub revision: u64,
}

pub struct MarkerModel {
    pub id: Seq<char>,
    pub branch_id: Seq<char>,
    pub cursor: u64,
    pub name: Seq<char>,
}

pub struct AnnotationModel {
    pub id: Seq<char>,
    pub branch_id: Seq<char>,
    pub start: u64,
    pub length: u64,
    pub kind: Seq<char>,
    pub text: Seq<char>,
}

pub struct AssetModel {
    pub digest: TasDigest,
    pub bytes: Seq<u8>,
}

pub struct ProjectModel {
    pub project_id: Seq<char>,
    pub identity: IdentityModel,
    pub branches: Seq<BranchModel>,
    pub markers: Seq<MarkerModel>,
    pub annotations: Seq<AnnotationModel>,
    pub assets: Seq<AssetModel>,
    pub edit_generation: u64,
    pub rerecord_count: u64,
}

impl View for TasBranchOrigin {
    type V = OriginModel;

    open spec fn view(&self) -> OriginModel {
        OriginModel { branch_id: self.branch_id@, fork_cursor: self.fork_cursor }
    }
}

pub open spec fn origin_view(o: Option<TasBranchOrigin>) -> Option<OriginModel> {
    match o {
        Some(origin) => Some(origin@),
        None => None,
    }
}

impl View for TasBranch {
    type V = BranchModel;

    open spec fn view(&self) -> BranchModel {
        BranchModel {
            id: self.id@,
            name: self.name@,
            parent: origin_view(self.parent),
            frames: self.frames@,
            events: events_view(self.events@),
            revision: self.revision,
        }
    }
}

impl View for TasMarker {
    type V = MarkerModel;

    open spec fn view(&self) -> MarkerModel {
        MarkerModel {
            id: self.id@,
            branch_id: self.branch_id@,
            cursor: self.cursor,
            name: self.name@,
        }
    }
}

impl View for TasAnnotation {
    type V = AnnotationModel;

    open spec fn view(&self) -> AnnotationModel {
        AnnotationModel {
            id: self.id@,
            branch_id: self.branch_id@,
            start: self.start,
            length: self.length,
            kind: self.kind@,
            text: self.text@,
        }
    }
}

impl View for TasAsset {
    type V = AssetModel;

    open spec fn view(&self) -> AssetModel {
        AssetModel { digest: self.digest, bytes: self.bytes@ }
    }
}

pub open spec fn assets_view(a: Seq<TasAsset>) -> Seq<AssetModel> {
    a.map_values(|x: TasAsset| x@)
}

pub open spec fn branches_view(b: Seq<TasBranch>) -> Seq<BranchModel> {
    b.map_values(|x: TasBranch| x@)
}

pub open spec fn markers_view(m: Seq<TasMarker>) -> Seq<MarkerModel> {
    m.map_values(|x: TasMarker| x@)
}

pub open spec fn annotations_view(a: Seq<TasAnnotation>) -> Seq<AnnotationModel> {
    a.map_values(|x: TasAnnotation| x@)
}

impl View for TasProject {
    type V = ProjectModel;

    open spec fn view(&self) -> ProjectModel {
        ProjectModel {
            project_id: self.project_id@,
            identity: self.identity@,
            branches: branches_view(self.branches@),
            markers: markers_view(self.markers@),
            annotations: annotations_view(self.annotations@),
            assets: assets_view(self.assets@),
            edit_generation: self.edit_generation,
            rerecord_count: self.rerecord_count,
        }
    }
}

/// The branches' ids are pairwise distinct.
pub open spec fn unique_branch_ids(b: Seq<BranchModel>) -> bool {
    forall|i: int, j: int| 0 <= i < b.len() && 0 <= j < b.len() && i != j ==> #[trigger] b[i].id != #[trigger] b[j].id
}

/// Index of the branch called `id`, if any.
pub open spec fn branch_index_of(b: Seq<BranchModel>, id: Seq<char>) -> Option<int> {
    if exists|i: int| 0 <= i < b.len() && (#[trigger] b[i]).id == id {
        Some(choose|i: int| 0 <= i < b.len() && (#[trigger] b[i]).id == id)
    } else {
        None
    }
}

/// With distinct ids, the index of a branch's own id is that branch.
pub proof fn lemma_branch_index_of_member(b: Seq<BranchModel>, i: int)
    requires
        unique_branch_ids(b),
        0 <= i < b.len(),
    ensures
        branch_index_of(b, b[i].id) == Some(i),
{
    assert(b[i].id == b[i].id);
    let c = choose|j: int| 0 <= j < b.len() && (#[trigger] b[j]).id == b[i].id;
    if c != i {
        assert(b[c].id != b[i].id);
    }
}

impl ProjectModel {
    /// Well-formed: at least one branch, distinct branch ids, and every branch
    /// within the frame limit.
    pub open spec fn wf(self) -> bool {
        &&& self.branches.len() > 0
        &&& unique_branch_ids(self.branches)
        &&& forall|i: int| 0 <= i < self.branches.len() ==> (#[trigger] self.branches[i]).frames.len() <= MAX_PROJECT_FRAMES
    }

    pub open spec fn has_branch(self, id: Seq<char>) -> bool {
        exists|i: int| 0 <= i < self.branches.len() && (#[trigger] self.branches[i]).id == id
    }
}

/// The input a branch holds at `frame`; neutral at and past its end.
pub open spec fn input_at_spec(frames: Seq<TasInputFrame>, frame: int) -> TasInputFrame {
    if 0 <= frame < frames.len() {
        frames[frame]
    } else {
        neutral_frame()
    }
}

impl TasBranchOrigin {
    pub fn clone_origin(&self) -> (r: Self)
        ensures
            r@ == self@,
    {
        TasBranchOrigin { branch_id: clone_string(&self.branch_id), fork_cursor: self.fork_cursor }
    }
}

impl TasBranch {
    /// A root branch of `frame_count` neutral frames and no events.
    pub fn neutral(id: &str, name: &str, frame_count: u64) -> (r: Self)
        requires
            frame_count <= MAX_PROJECT_FRAMES,
        ensures
            r@.id == id@,
            r@.name == name@,
            r@.parent is None,
            r@.frames == Seq::new(frame_count as nat, |i: int| neutral_frame()),
            r@.events.len() == 0,
            r@.revision == 0,
    {
        let mut frames: Vec<TasInputFrame> = Vec::new();
        let mut i: u64 = 0;
        while i < frame_count
            invariant
                i <= frame_count,
                frames@ == Seq::new(i as nat, |k: int| neutral_frame()),
            decreases frame_count - i,
        {
            frames.push(TasInputFrame::neutral());
            i += 1;
            proof {
                assert(frames@ =~= Seq::new(i as nat, |k: int| neutral_frame()));
            }
        }
        let r = TasBranch {
            id: id.to_owned(),
            name: name.to_owned(),
            parent: None,
            frames,
            events: Vec::new(),
            revision: 0,
        };
        proof {
            assert(r@.events =~= Seq::<ReplayEventModel>::empty());
        }
        r
    }

    pub fn id(&self) -> (r: &str)
        ensures
            r@ == self.id@,
    {
        self.id.as_str()
    }

    pub fn name(&self) -> (r: &str)
        ensures
            r@ == self.name@,
    {
        self.name.as_str()
    }

    pub fn parent(&self) -> (r: Option<&TasBranchOrigin>)
        ensures
            match r {
                Some(o) => self.parent == Some(*o),
                None => self.parent is None,
            },
    {
        self.parent.as_ref()
    }

    /// Number of input frames.
    pub fn frame_count(&self) -> (r: u64)
        ensures
            r == self.frames@.len(),
    {
        self.frames.len() as u64
    }

    /// The input at `frame`, neutral at and past the end.
    pub fn input_at(&self, frame: u64) -> (r: TasInputFrame)
        ensures
            r == input_at_spec(self.frames@, frame as int),
    {
        if frame < self.frames.len() as u64 {
            self.frames[frame as usize]
        } else {
            TasInputFrame::neutral()
        }
    }

    /// The maximal runs of identical non-neutral input.
    pub fn input_spans(&self) -> (r: Vec<TasInputSpan>)
        ensures
            r@ == spans_of(self.frames@),
    {
        let n = self.frames.len();
        proof {
            assert(n <= u64::MAX);
        }
        let pattern = TasInputPattern { frames: copy_frames(&self.frames) };
        pattern.spans()
    }

    /// The events of the branch.
    pub fn events(&self) -> (r: &Vec<ReplayEvent>)
        ensures
            events_view(r@) == self@.events,
    {
        &self.events
    }

    /// The `length` frames starting at `start`.
    pub fn input_pattern(&self, start: u64, length: u64) -> (r: Result<TasInputPattern, TasPatternError>)
        ensures
            match r {
                Ok(p) => 0 < length <= MAX_PROJECT_FRAMES && start + length <= self.frames@.len()
                    && p@ == self.frames@.subrange(start as int, start + length),
                Err(e) => (e == TasPatternError::InvalidLength && !(0 < length <= MAX_PROJECT_FRAMES))
                    || (e == TasPatternError::OutsideBranch && 0 < length <= MAX_PROJECT_FRAMES
                        && start + length > self.frames@.len()),
            },
    {
        if length == 0 || length > MAX_PROJECT_FRAMES {
            return Err(TasPatternError::InvalidLength);
        }
        let n = self.frames.len();
        proof {
            assert(n <= u64::MAX);
        }
        let count = n as u64;
        if start > count || length > count - start {
            return Err(TasPatternError::OutsideBranch);
        }
        let first = start as usize;
        let last = (start + length) as usize;
        let mut frames: Vec<TasInputFrame> = Vec::new();
        let mut j: usize = first;
        while j < last
            invariant
                first <= j <= last,
                first == start,
                last == start + length,
                last <= self.frames@.len(),
                frames@ == self.frames@.subrange(start as int, j as int),
            decreases last - j,
        {
            frames.push(self.frames[j]);
            j += 1;
            proof {
                assert(frames@ =~= self.frames@.subrange(start as int, j as int));
            }
        }
        Ok(TasInputPattern { frames })
    }

    /// A copy of the branch.
    pub fn clone_branch(&self) -> (r: Self)
        ensures
            r@ == self@,
    {
        let parent = match &self.parent {
            Some(o) => Some(o.clone_origin()),
            None => None,
        };
        TasBranch {
            id: clone_string(&self.id),
            name: clone_string(&self.name),
            parent,
            frames: copy_frames(&self.frames),
            events: clone_events(&self.events),
            revision: self.revision,
        }
    }
}

impl TasMarker {
    pub fn clone_marker(&self) -> (r: Self)
        ensures
            r@ == self@,
    {
        TasMarker {
            id: clone_string(&self.id),
            branch_id: clone_string(&self.branch_id),
            cursor: self.cursor,
            name: clone_string(&self.name),
        }
    }
}

impl TasAnnotation {
    pub fn clone_annotation(&self) -> (r: Self)
        ensures
            r@ == self@,
    {
        TasAnnotation {
            id: clone_string(&self.id),
            branch_id: clone_string(&self.branch_id),
            start: self.start,
            length: self.length,
            kind: clone_string(&self.kind),
            text: clone_string(&self.text),
        }
    }
}

/// A copy of a list of markers.
pub fn clone_markers(m: &Vec<TasMarker>) -> (r: Vec<TasMarker>)
    ensures
        markers_view(r@) == markers_view(m@),
{
    let mut out: Vec<TasMarker> = Vec::new();
    let mut i: usize = 0;
    while i < m.len()
        invariant
            0 <= i <= m@.len(),
            out@.len() == i,
            forall|k: int| 0 <= k < i ==> (#[trigger] out@[k])@ == m@[k]@,
        decreases m@.len() - i,
    {
        out.push(m[i].clone_marker());
        i += 1;
    }
    proof {
        assert(markers_view(out@) =~= markers_view(m@));
    }
    out
}

/// A copy of a list of annotations.
pub fn clone_annotations(a: &Vec<TasAnnotation>) -> (r: Vec<TasAnnotation>)
    ensures
        annotations_view(r@) == annotations_view(a@),
{
    let mut out: Vec<TasAnnotation> = Vec::new();
    let mut i: usize = 0;
    while i < a.len()
        invariant
            0 <= i <= a@.len(),
            out@.len() == i,
            forall|k: int| 0 <= k < i ==> (#[trigger] out@[k])@ == a@[k]@,
        decreases a@.len() - i,
    {
        out.push(a[i].clone_annotation());
        i += 1;
    }
    proof {
        assert(annotations_view(out@) =~= annotations_view(a@));
    }
    out
}

/// A copy of a list of bytes.
pub fn clone_bytes(b: &Vec<u8>) -> (r: Vec<u8>)
    ensures
        r@ == b@,
{
    let mut out: Vec<u8> = Vec::new();
    let mut i: usize = 0;
    while i < b.len()
        invariant
            0 <= i <= b@.len(),
            out@ == b@.take(i as int),
        decreases b@.len() - i,
    {
        out.push(b[i]);
        i += 1;
        proof {
            assert(out@ =~= b@.take(i as int));
        }
    }
    proof {
        assert(b@.take(b@.len() as int) =~= b@);
    }
    out
}

/// A copy of a list of assets.
pub fn clone_assets(a: &Vec<TasAsset>) -> (r: Vec<TasAsset>)
    ensures
        assets_view(r@) == assets_view(a@),
{
    let mut out: Vec<TasAsset> = Vec::new();
    let mut i: usize = 0;
    while i < a.len()
        invariant
            0 <= i <= a@.len(),
            out@.len() == i,
            forall|k: int| 0 <= k < i ==> (#[trigger] out@[k])@ == a@[k]@,
        decreases a@.len() - i,
    {
        out.push(TasAsset { digest: a[i].digest, bytes: clone_bytes(&a[i].bytes) });
        i += 1;
    }
    proof {
        assert(assets_view(out@) =~= assets_view(a@));
    }
    out
}

/// A copy of a list of branches.
pub fn clone_branches(b: &Vec<TasBranch>) -> (r: Vec<TasBranch>)
    ensures
        branches_view(r@) == branches_view(b@),
{
    let mut out: Vec<TasBranch> = Vec::new();
    let mut i: usize = 0;
    while i < b.len()
        invariant
            0 <= i <= b@.len(),
            out@.len() == i,
            forall|k: int| 0 <= k < i ==> (#[trigger] out@[k])@ == b@[k]@,
        decreases b@.len() - i,
    {
        out.push(b[i].clone_branch());
        i += 1;
    }
    proof {
        assert(branches_view(out@) =~= branches_view(b@));
    }
    out
}

impl TasProject {
    /// A new project with a single root branch of `frame_count` neutral frames.
    pub fn new(
        project_id: &str,
        identity: TasProjectIdentity,
        branch_id: &str,
        branch_name: &str,
        frame_count: u64,
    ) -> (r: Self)
        requires
            frame_count <= MAX_PROJECT_FRAMES,
        ensures
            r@.wf(),
            r@.project_id == project_id@,
            r@.identity == identity@,
            r@.branches.len() == 1,
            r@.branches[0].id == branch_id@,
            r@.branches[0].name == branch_name@,
            r@.branches[0].parent is None,
            r@.branches[0].frames == Seq::new(frame_count as nat, |i: int| neutral_frame()),
            r@.branches[0].events.len() == 0,
            r@.markers.len() == 0,
            r@.annotations.len() == 0,
            r@.assets.len() == 0,
            r@.edit_generation == 0,
            r@.rerecord_count == 0,
    {
        let mut branches: Vec<TasBranch> = Vec::new();
        branches.push(TasBranch::neutral(branch_id, branch_name, frame_count));
        let r = TasProject {
            project_id: project_id.to_owned(),
            identity,
            branches,
            markers: Vec::new(),
            annotations: Vec::new(),
            assets: Vec::new(),
            edit_generation: 0,
            rerecord_count: 0,
        };
        proof {
            assert(r@.branches[0] == r.branches@[0]@);
            assert(r@.markers =~= Seq::<MarkerModel>::empty());
            assert(r@.annotations =~= Seq::<AnnotationModel>::empty());
            assert(r@.assets =~= Seq::<AssetModel>::empty());
        }
        r
    }

    pub fn identity(&self) -> (r: &TasProjectIdentity)
        ensures
            r@ == self@.identity,
    {
        &self.identity
    }

    pub fn edit_generation(&self) -> (r: u64)
        ensures
            r == self.edit_generation,
    {
        self.edit_generation
    }

    /// Witness of the whole project's content.
    pub fn content_digest(&self) -> (r: TasDigest)
        ensures
            r == TasDigest(self.edit_generation),
    {
        TasDigest(self.edit_generation)
    }

    pub fn branches(&self) -> (r: &Vec<TasBranch>)
        ensures
            branches_view(r@) == self@.branches,
    {
        &self.branches
    }

    pub fn markers(&self) -> (r: &Vec<TasMarker>)
        ensures
            markers_view(r@) == self@.markers,
    {
        &self.markers
    }

    pub fn annotations(&self) -> (r: &Vec<TasAnnotation>)
        ensures
            annotations_view(r@) == self@.annotations,
    {
        &self.annotations
    }

    /// Index of the branch called `id`.
    pub fn branch_index(&self, id: &str) -> (r: Option<usize>)
        requires
            unique_branch_ids(self@.branches),
        ensures
            match r {
                Some(i) => i < self.branches@.len() && self@.branches[i as int].id == id@
                    && branch_index_of(self@.branches, id@) == Some(i as int),
                None => !self@.has_branch(id@) && branch_index_of(self@.branches, id@) is None,
            },
    {
        let mut i: usize = 0;
        while i < self.branches.len()
            invariant
                0 <= i <= self.branches@.len(),
                unique_branch_ids(self@.branches),
                forall|k: int| 0 <= k < i ==> (#[trigger] self@.branches[k]).id != id@,
            decreases self.branches@.len() - i,
        {
            if str_eq(self.branches[i].id.as_str(), id) {
                proof {
                    assert(self@.branches[i as int] == self.branches@[i as int]@);
                    let c = choose|j: int| 0 <= j < self@.branches.len() && (#[trigger] self@.branches[j]).id == id@;
                    if c != i {
                        assert(self@.branches[c].id != self@.branches[i as int].id);
                    }
                }
                return Some(i);
            }
            proof {
                assert(self@.branches[i as int] == self.branches@[i as int]@);
            }
            i += 1;
        }
        None
    }

    /// The branch called `id`.
    pub fn branch(&self, id: &str) -> (r: Option<&TasBranch>)
        requires
            unique_branch_ids(self@.branches),
        ensures
            match r {
                Some(b) => self@.has_branch(id@) && b@ == self@.branches[branch_index_of(self@.branches, id@).unwrap()],
                None => !self@.has_branch(id@),
            },
    {
        match self.branch_index(id) {
            Some(i) => {
                proof {
                    assert(self@.branches[i as int] == self.branches@[i as int]@);
                }
                Some(&self.branches[i])
            },
            None => None,
        }
    }

    /// Witness of the movie held by the branch called `branch_id`.
    pub fn branch_movie_digest(&self, branch_id: &str) -> (r: Option<TasDigest>)
        requires
            unique_branch_ids(self@.branches),
        ensures
            match r {
                Some(d) => self@.has_branch(branch_id@)
                    && d == TasDigest(self@.branches[branch_index_of(self@.branches, branch_id@).unwrap()].revision),
                None => !self@.has_branch(branch_id@),
            },
    {
        match self.branch(branch_id) {
            Some(b) => Some(TasDigest(b.revision)),
            None => None,
        }
    }

    /// A copy of the project.
    pub fn clone_project(&self) -> (r: Self)
        ensures
            r@ == self@,
    {
        TasProject {
            project_id: clone_string(&self.project_id),
            identity: self.identity.clone_identity(),
            branches: clone_branches(&self.branches),
            markers: clone_markers(&self.markers),
            annotations: clone_annotations(&self.annotations),
            assets: clone_assets(&self.assets),
            edit_generation: self.edit_generation,
            rerecord_count: self.rerecord_count,
        }
    }

    /// How many recorded edits changed a branch's movie.
    pub fn rerecord_count(&self) -> (r: u64)
        ensures
            r == self@.rerecord_count,
    {
        self.rerecord_count
    }
}

/// A counter one step further, staying at its maximum.
pub open spec fn bumped(n: u64) -> u64 {
    if n < u64::MAX { (n + 1) as u64 } else { n }
}

/// A counter one step further, staying at its maximum.
pub fn bump(n: u64) -> (r: u64)
    ensures
        r == bumped(n),
{
    if n < u64::MAX { n + 1 } else { n }
}

/// Characters allowed in branch, marker and annotation ids.
pub open spec fn id_char(c: char) -> bool {
    ('a' <= c && c <= 'z') || ('A' <= c && c <= 'Z') || ('0' <= c && c <= '9') || c == '-' || c == '_' || c == '.'
}

/// A usable id: one to 64 id characters.
pub open spec fn spec_valid_id(s: Seq<char>) -> bool {
    0 < s.len() <= 64 && forall|k: int| 0 <= k < s.len() ==> id_char(#[trigger] s[k])
}

/// Whether `s` is a usable id.
pub fn valid_id(s: &str) -> (r: bool)
    ensures
        r == spec_valid_id(s@),
{
    let n = s.unicode_len();
    if n == 0 || n > 64 {
        return false;
    }
    let mut i: usize = 0;
    while i < n
        invariant
            n == s@.len(),
            0 <= i <= n,
            forall|k: int| 0 <= k < i ==> id_char(#[trigger] s@[k]),
        decreases n - i,
    {
        let c = s.get_char(i);
        if !(('a' <= c && c <= 'z') || ('A' <= c && c <= 'Z') || ('0' <= c && c <= '9') || c == '-' || c == '_' || c == '.') {
            return false;
        }
        i += 1;
    }
    true
}

/// A marker the project can hold: a usable id on an existing branch, at a
/// boundary of that branch.
pub open spec fn marker_fits(p: ProjectModel, m: MarkerModel) -> bool {
    &&& spec_valid_id(m.id)
    &&& p.has_branch(m.branch_id)
    &&& m.cursor <= p.branches[branch_index_of(p.branches, m.branch_id).unwrap()].frames.len()
}

/// An annotation the project can hold: a usable id and a kind, on a non-empty
/// run of frames of an existing branch.
pub open spec fn annotation_fits(p: ProjectModel, a: AnnotationModel) -> bool {
    &&& spec_valid_id(a.id)
    &&& spec_trim(a.kind).len() > 0
    &&& p.has_branch(a.branch_id)
    &&& a.length > 0
    &&& a.start + a.length <= p.branches[branch_index_of(p.branches, a.branch_id).unwrap()].frames.len()
}

/// No two markers share a branch and an id.
pub open spec fn markers_distinct(m: Seq<MarkerModel>) -> bool {
    forall|i: int, j: int| 0 <= i < j < m.len() ==> !(#[trigger] m[i].branch_id == #[trigger] m[j].branch_id && m[i].id == m[j].id)
}

/// No two annotations share a branch and an id.
pub open spec fn annotations_distinct(a: Seq<AnnotationModel>) -> bool {
    forall|i: int, j: int| 0 <= i < j < a.len() ==> !(#[trigger] a[i].branch_id == #[trigger] a[j].branch_id && a[i].id == a[j].id)
}

impl TasProject {
    /// Whether `marker` fits the project.
    pub fn marker_fits(&self, marker: &TasMarker) -> (r: bool)
        requires
            unique_branch_ids(self@.branches),
        ensures
            r == marker_fits(self@, marker@),
    {
        if !valid_id(marker.id.as_str()) {
            return false;
        }
        match self.branch(marker.branch_id.as_str()) {
            Some(b) => marker.cursor <= b.frame_count(),
            None => false,
        }
    }

    /// Whether `annotation` fits the project.
    pub fn annotation_fits(&self, annotation: &TasAnnotation) -> (r: bool)
        requires
            unique_branch_ids(self@.branches),
        ensures
            r == annotation_fits(self@, annotation@),
    {
        if !valid_id(annotation.id.as_str()) || is_blank(annotation.kind.as_str()) {
            proof {
                lemma_blank_trim(annotation.kind@);
            }
            return false;
        }
        proof {
            lemma_blank_trim(annotation.kind@);
        }
        match self.branch(annotation.branch_id.as_str()) {
            Some(b) => annotation.length > 0 && annotation.start <= b.frame_count()
                && annotation.length <= b.frame_count() - annotation.start,
            None => false,
        }
    }
}

/// Whether two markers are equal.
pub fn marker_eq(a: &TasMarker, b: &TasMarker) -> (r: bool)
    ensures
        r == (a@ == b@),
{
    string_eq(&a.id, &b.id) && string_eq(&a.branch_id, &b.branch_id) && a.cursor == b.cursor
        && string_eq(&a.name, &b.name)
}

/// Whether two annotations are equal.
pub fn annotation_eq(a: &TasAnnotation, b: &TasAnnotation) -> (r: bool)
    ensures
        r == (a@ == b@),
{
    string_eq(&a.id, &b.id) && string_eq(&a.branch_id, &b.branch_id) && a.start == b.start
        && a.length == b.length && string_eq(&a.kind, &b.kind) && string_eq(&a.text, &b.text)
}

/// Whether two marker lists are equal.
pub fn markers_eq(a: &Vec<TasMarker>, b: &Vec<TasMarker>) -> (r: bool)
    ensures
        r == (markers_view(a@) == markers_view(b@)),
{
    if a.len() != b.len() {
        proof {
            assert(markers_view(a@).len() != markers_view(b@).len());
        }
        return false;
    }
    let mut i: usize = 0;
    while i < a.len()
        invariant
            a@.len() == b@.len(),
            0 <= i <= a@.len(),
            forall|k: int| 0 <= k < i ==> a@[k]@ == b@[k]@,
        decreases a@.len() - i,
    {
        if !marker_eq(&a[i], &b[i]) {
            proof {
                assert(markers_view(a@)[i as int] != markers_view(b@)[i as int]);
            }
            return false;
        }
        i += 1;
    }
    proof {
        assert(markers_view(a@) =~= markers_view(b@));
    }
    true
}

/// Whether two annotation lists are equal.
pub fn annotations_eq(a: &Vec<TasAnnotation>, b: &Vec<TasAnnotation>) -> (r: bool)
    ensures
        r == (annotations_view(a@) == annotations_view(b@)),
{
    if a.len() != b.len() {
        proof {
            assert(annotations_view(a@).len() != annotations_view(b@).len());
        }
        return false;
    }
    let mut i: usize = 0;
    while i < a.len()
        invariant
            a@.len() == b@.len(),
            0 <= i <= a@.len(),
            forall|k: int| 0 <= k < i ==> a@[k]@ == b@[k]@,
        decreases a@.len() - i,
    {
        if !annotation_eq(&a[i], &b[i]) {
            proof {
                assert(annotations_view(a@)[i as int] != annotations_view(b@)[i as int]);
            }
            return false;
        }
        i += 1;
    }
    proof {
        assert(annotations_view(a@) =~= annotations_view(b@));
    }
    true
}

/// Markers the project can hold as its whole marker list.
pub open spec fn markers_acceptable(p: ProjectModel, m: Seq<MarkerModel>) -> bool {
    (forall|k: int| 0 <= k < m.len() ==> marker_fits(p, #[trigger] m[k])) && markers_distinct(m)
}

/// Annotations the project can hold as its whole annotation list.
pub open spec fn annotations_acceptable(p: ProjectModel, a: Seq<AnnotationModel>) -> bool {
    (forall|k: int| 0 <= k < a.len() ==> annotation_fits(p, #[trigger] a[k])) && annotations_distinct(a)
}

impl TasProject {
    /// Whether `markers` may replace the project's marker list.
    pub fn markers_acceptable(&self, markers: &Vec<TasMarker>) -> (r: bool)
        requires
            unique_branch_ids(self@.branches),
        ensures
            r == markers_acceptable(self@, markers_view(markers@)),
    {
        let ghost m = markers_view(markers@);
        let mut i: usize = 0;
        while i < markers.len()
            invariant
                0 <= i <= markers@.len(),
                m == markers_view(markers@),
                unique_branch_ids(self@.branches),
                forall|k: int| 0 <= k < i ==> marker_fits(self@, #[trigger] m[k]),
                forall|a: int, b: int| 0 <= a < b < i ==> !(#[trigger] m[a].branch_id == #[trigger] m[b].branch_id && m[a].id == m[b].id),
            decreases markers@.len() - i,
        {
            proof {
                assert(m[i as int] == markers@[i as int]@);
            }
            if !self.marker_fits(&markers[i]) {
                return false;
            }
            let mut j: usize = 0;
            while j < i
                invariant
                    0 <= j <= i < markers@.len(),
                    m == markers_view(markers@),
                    forall|a: int| 0 <= a < j ==> !(#[trigger] m[a].branch_id == m[i as int].branch_id && m[a].id == m[i as int].id),
                decreases i - j,
            {
                proof {
                    assert(m[j as int] == markers@[j as int]@);
                    assert(m[i as int] == markers@[i as int]@);
                }
                if string_eq(&markers[j].branch_id, &markers[i].branch_id) && string_eq(&markers[j].id, &markers[i].id) {
                    return false;
                }
                j += 1;
            }
            i += 1;
        }
        true
    }

    /// Whether `annotations` may replace the project's annotation list.
    pub fn annotations_acceptable(&self, annotations: &Vec<TasAnnotation>) -> (r: bool)
        requires
            unique_branch_ids(self@.branches),
        ensures
            r == annotations_acceptable(self@, annotations_view(annotations@)),
    {
        let ghost m = annotations_view(annotations@);
        let mut i: usize = 0;
        while i < annotations.len()
            invariant
                0 <= i <= annotations@.len(),
                m == annotations_view(annotations@),
                unique_branch_ids(self@.branches),
                forall|k: int| 0 <= k < i ==> annotation_fits(self@, #[trigger] m[k]),
                forall|a: int, b: int| 0 <= a < b < i ==> !(#[trigger] m[a].branch_id == #[trigger] m[b].branch_id && m[a].id == m[b].id),
            decreases annotations@.len() - i,
        {
            proof {
                assert(m[i as int] == annotations@[i as int]@);
            }
            if !self.annotation_fits(&annotations[i]) {
                return false;
            }
            let mut j: usize = 0;
            while j < i
                invariant
                    0 <= j <= i < annotations@.len(),
                    m == annotations_view(annotations@),
                    forall|a: int| 0 <= a < j ==> !(#[trigger] m[a].branch_id == m[i as int].branch_id && m[a].id == m[i as int].id),
                decreases i - j,
            {
                proof {
                    assert(m[j as int] == annotations@[j as int]@);
                    assert(m[i as int] == annotations@[i as int]@);
                }
                if string_eq(&annotations[j].branch_id, &annotations[i].branch_id) && string_eq(&annotations[j].id, &annotations[i].id) {
                    return false;
                }
                j += 1;
            }
            i += 1;
        }
        true
    }
}

/// The parent id of the branch called `id`, if it has one.
pub open spec fn parent_id_of(b: Seq<BranchModel>, id: Seq<char>) -> Option<Seq<char>> {
    match branch_index_of(b, id) {
        Some(i) => match b[i].parent {
            Some(o) => Some(o.branch_id),
            None => None,
        },
        None => None,
    }
}

/// Whether following at most `fuel` parent links from `id` reaches `root`.
pub open spec fn reaches(b: Seq<BranchModel>, id: Seq<char>, root: Seq<char>, fuel: nat) -> bool
    decreases fuel,
{
    id == root || (fuel > 0 && match parent_id_of(b, id) {
        Some(p) => reaches(b, p, root, (fuel - 1) as nat),
        None => false,
    })
}

/// Whether branch `id` is `root` or descends from it.
pub open spec fn in_subtree(b: Seq<BranchModel>, root: Seq<char>, id: Seq<char>) -> bool {
    reaches(b, id, root, b.len())
}

impl TasProject {
    /// Whether branch `id` is `root` or descends from it.
    pub fn in_subtree(&self, root: &str, id: &str) -> (r: bool)
        requires
            unique_branch_ids(self@.branches),
        ensures
            r == in_subtree(self@.branches, root@, id@),
    {
        let ghost b = self@.branches;
        let mut current = string_of(id);
        let mut fuel: usize = self.branches.len();
        while fuel > 0
            invariant
                unique_branch_ids(self@.branches),
                b == self@.branches,
                fuel <= b.len(),
                in_subtree(b, root@, id@) == reaches(b, current@, root@, fuel as nat),
            decreases fuel,
        {
            if str_eq(current.as_str(), root) {
                return true;
            }
            let next = match self.branch_index(current.as_str()) {
                Some(i) => {
                    proof {
                        assert(b[i as int] == self.branches@[i as int]@);
                    }
                    match &self.branches[i].parent {
                        Some(o) => clone_string(&o.branch_id),
                        None => return false,
                    }
                },
                None => return false,
            };
            current = next;
            fuel -= 1;
        }
        str_eq(current.as_str(), root)
    }

    /// The ids of `root` and of every branch descending from it, in project order.
    pub fn subtree_ids(&self, root: &str) -> (r: Vec<String>)
        requires
            unique_branch_ids(self@.branches),
        ensures
            r@.len() <= self@.branches.len(),
            forall|k: int| 0 <= k < r@.len() ==> in_subtree(self@.branches, root@, #[trigger] r@[k]@) && self@.has_branch(r@[k]@),
            forall|k: int| 0 <= k < self@.branches.len() && in_subtree(self@.branches, root@, #[trigger] self@.branches[k].id)
                ==> exists|j: int| 0 <= j < r@.len() && #[trigger] r@[j]@ == self@.branches[k].id,
            forall|a: int, c: int| 0 <= a < c < r@.len() ==> #[trigger] r@[a]@ != #[trigger] r@[c]@,
    {
        let ghost b = self@.branches;
        let mut out: Vec<String> = Vec::new();
        let ghost mut picks: Seq<int> = Seq::empty();
        let mut i: usize = 0;
        while i < self.branches.len()
            invariant
                unique_branch_ids(self@.branches),
                b == self@.branches,
                0 <= i <= b.len(),
                out@.len() == picks.len(),
                out@.len() <= i,
                forall|k: int| 0 <= k < picks.len() ==> 0 <= #[trigger] picks[k] < i && out@[k]@ == b[picks[k]].id,
                forall|a: int, c: int| 0 <= a < c < picks.len() ==> #[trigger] picks[a] < #[trigger] picks[c],
                forall|k: int| 0 <= k < out@.len() ==> in_subtree(b, root@, #[trigger] out@[k]@),
                forall|k: int| 0 <= k < i && in_subtree(b, root@, #[trigger] b[k].id) ==> exists|j: int| 0 <= j < picks.len() && #[trigger] picks[j] == k,
            decreases b.len() - i,
        {
            proof {
                assert(b[i as int] == self.branches@[i as int]@);
            }
            let ghost old_picks = picks;
            let inside = self.in_subtree(root, self.branches[i].id.as_str());
            if inside {
                out.push(clone_string(&self.branches[i].id));
                proof {
                    picks = picks.push(i as int);
                    assert(picks[picks.len() - 1] == i as int);
                }
            }
            proof {
                assert forall|k: int| 0 <= k < i + 1 && in_subtree(b, root@, #[trigger] b[k].id)
                    implies exists|j: int| 0 <= j < picks.len() && #[trigger] picks[j] == k by {
                    if k < i {
                        let j = choose|j: int| 0 <= j < old_picks.len() && #[trigger] old_picks[j] == k;
                        assert(picks[j] == old_picks[j]);
                    } else {
                        assert(picks[picks.len() - 1] == k);
                    }
                }
            }
            i += 1;
        }
        proof {
            assert forall|k: int| 0 <= k < out@.len() implies self@.has_branch(#[trigger] out@[k]@) by {
                assert(b[picks[k]].id == out@[k]@);
            }
            assert forall|k: int| 0 <= k < b.len() && in_subtree(b, root@, #[trigger] b[k].id)
                implies exists|j: int| 0 <= j < out@.len() && #[trigger] out@[j]@ == b[k].id by {
                let j = choose|j: int| 0 <= j < picks.len() && #[trigger] picks[j] == k;
                assert(out@[j]@ == b[k].id);
            }
            assert forall|a: int, c: int| 0 <= a < c < out@.len() implies #[trigger] out@[a]@ != #[trigger] out@[c]@ by {
                assert(picks[a] < picks[c]);
                assert(out@[a]@ == b[picks[a]].id);
                assert(out@[c]@ == b[picks[c]].id);
            }
        }
        out
    }
}

} // verus!
