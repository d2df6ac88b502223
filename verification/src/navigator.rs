//! The branch navigator: one entry per branch (root branches first, then by
//! id), what each action is allowed to do, and the next free branch name.
use vstd::prelude::*;

use crate::editor::TasEditorAction;
use crate::live::{
    TasEditorLiveStatus, spec_execution_boundary, spec_holds_authority, spec_locks_editor,
};
use crate::project::{BranchModel, ProjectModel, TasBranch, branch_index_of, in_subtree};
use crate::session::TasEditorSession;
use crate::text::{decimal, push_decimal, push_str, string_of};

verus! {

/// Lexicographic order of character sequences (the order of `str`).
pub open spec fn seq_lt(a: Seq<char>, b: Seq<char>) -> bool
    decreases a.len(),
{
    if a.len() == 0 {
        b.len() > 0
    } else if b.len() == 0 {
        false
    } else if a[0] != b[0] {
        (a[0] as int) < (b[0] as int)
    } else {
        seq_lt(a.drop_first(), b.drop_first())
    }
}

/// No id sorts before itself.
pub proof fn lemma_seq_lt_irreflexive(a: Seq<char>)
    ensures
        !seq_lt(a, a),
    decreases a.len(),
{
    if a.len() > 0 {
        lemma_seq_lt_irreflexive(a.drop_first());
    }
}

/// The id order is transitive.
pub proof fn lemma_seq_lt_transitive(a: Seq<char>, b: Seq<char>, c: Seq<char>)
    requires
        seq_lt(a, b),
        seq_lt(b, c),
    ensures
        seq_lt(a, c),
    decreases a.len(),
{
    if a.len() > 0 && b.len() > 0 && c.len() > 0 {
        if a[0] == b[0] && b[0] == c[0] {
            lemma_seq_lt_transitive(a.drop_first(), b.drop_first(), c.drop_first());
        }
    }
}

/// Of two different ids, one sorts before the other.
pub proof fn lemma_seq_lt_total(a: Seq<char>, b: Seq<char>)
    requires
        a != b,
    ensures
        seq_lt(a, b) || seq_lt(b, a),
    decreases a.len(),
{
    if a.len() > 0 && b.len() > 0 && a[0] != b[0] {
        assert((a[0] as int) != (b[0] as int));
    } else if a.len() > 0 && b.len() > 0 && a[0] == b[0] {
        if a.drop_first() == b.drop_first() {
            assert(a =~= seq![a[0]] + a.drop_first());
            assert(b =~= seq![b[0]] + b.drop_first());
        }
        lemma_seq_lt_total(a.drop_first(), b.drop_first());
    } else if a.len() == 0 && b.len() == 0 {
        assert(a =~= b);
    }
}

/// Whether `a` sorts before `b`.
pub fn str_lt(a: &str, b: &str) -> (r: bool)
    ensures
        r == seq_lt(a@, b@),
{
    let n = a.unicode_len();
    let m = b.unicode_len();
    proof {
        assert(a@.skip(0) =~= a@);
        assert(b@.skip(0) =~= b@);
    }
    let mut i: usize = 0;
    while i < n && i < m
        invariant
            n == a@.len(),
            m == b@.len(),
            0 <= i <= n,
            i <= m,
            seq_lt(a@, b@) == seq_lt(a@.skip(i as int), b@.skip(i as int)),
        decreases n - i,
    {
        let x = a.get_char(i);
        let y = b.get_char(i);
        proof {
            assert(a@.skip(i as int)[0] == x);
            assert(b@.skip(i as int)[0] == y);
        }
        if x != y {
            return (x as u32) < (y as u32);
        }
        proof {
            assert(a@.skip(i as int).drop_first() =~= a@.skip(i + 1));
            assert(b@.skip(i as int).drop_first() =~= b@.skip(i + 1));
        }
        i += 1;
    }
    i >= n && i < m
}

/// One line of the navigator.
#[derive(Clone, Debug, PartialEq, Eq)]
pub struct BranchNavigatorEntry {
    pub id: String,
    pub name: String,
    pub origin: String,
    pub frame_count: u64,
    pub active: bool,
    pub root: bool,
    pub subtree_size: usize,
    pub contains_active: bool,
}

pub struct EntryModel {
    pub id: Seq<char>,
    pub name: Seq<char>,
    pub origin: Seq<char>,
    pub frame_count: u64,
    pub active: bool,
    pub root: bool,
    pub subtree_size: nat,
    pub contains_active: bool,
}

impl View for BranchNavigatorEntry {
    type V = EntryModel;

    open spec fn view(&self) -> EntryModel {
        EntryModel {
            id: self.id@,
            name: self.name@,
            origin: self.origin@,
            frame_count: self.frame_count,
            active: self.active,
            root: self.root,
            subtree_size: self.subtree_size as nat,
            contains_active: self.contains_active,
        }
    }
}

/// Number of the first `n` branches that lie in the subtree of `root`.
pub open spec fn subtree_count(b: Seq<BranchModel>, root: Seq<char>, n: int) -> nat
    decreases n,
{
    if n <= 0 {
        0
    } else {
        subtree_count(b, root, n - 1) + if in_subtree(b, root, b[n - 1].id) { 1nat } else { 0nat }
    }
}

/// Where a branch comes from: "root", or its parent's name (or id) and the fork boundary.
pub open spec fn origin_label(b: Seq<BranchModel>, x: BranchModel) -> Seq<char> {
    match x.parent {
        None => "root"@,
        Some(o) => {
            let parent = match branch_index_of(b, o.branch_id) {
                Some(i) => b[i].name,
                None => o.branch_id,
            };
            "from "@ + parent + " at B("@ + decimal(o.fork_cursor as nat) + ")"@
        },
    }
}

/// The entry of branch `k` of a project whose selected branch is `selected`.
#[verifier::opaque]
pub open spec fn entry_model(b: Seq<BranchModel>, selected: Seq<char>, k: int) -> EntryModel {
    EntryModel {
        id: b[k].id,
        name: b[k].name,
        origin: origin_label(b, b[k]),
        frame_count: b[k].frames.len() as u64,
        active: b[k].id == selected,
        root: b[k].parent is None,
        subtree_size: subtree_count(b, b[k].id, b.len() as int),
        contains_active: in_subtree(b, b[k].id, selected),
    }
}

/// Root branches come first; then branches sort by id.
pub open spec fn entry_lt(x: EntryModel, y: EntryModel) -> bool {
    (x.root && !y.root) || (x.root == y.root && seq_lt(x.id, y.id))
}

proof fn lemma_entry_lt_transitive(x: EntryModel, y: EntryModel, z: EntryModel)
    requires
        entry_lt(x, y),
        entry_lt(y, z),
    ensures
        entry_lt(x, z),
{
    if x.root == y.root && y.root == z.root {
        lemma_seq_lt_transitive(x.id, y.id, z.id);
    }
}

proof fn lemma_entry_lt_total(x: EntryModel, y: EntryModel)
    requires
        x.id != y.id,
    ensures
        entry_lt(x, y) || entry_lt(y, x),
{
    lemma_seq_lt_total(x.id, y.id);
}

fn entry_before(x: &BranchNavigatorEntry, y: &BranchNavigatorEntry) -> (r: bool)
    ensures
        r == entry_lt(x@, y@),
{
    (x.root && !y.root) || (x.root == y.root && str_lt(x.id.as_str(), y.id.as_str()))
}

/// The label of where branch `x` comes from.
fn origin_of(project: &crate::project::TasProject, x: &TasBranch) -> (r: String)
    requires
        crate::project::unique_branch_ids(project@.branches),
    ensures
        r@ == origin_label(project@.branches, x@),
{
    match &x.parent {
        None => string_of("root"),
        Some(o) => {
            let mut s = string_of("from ");
            match project.branch(o.branch_id.as_str()) {
                Some(p) => push_str(&mut s, p.name.as_str()),
                None => push_str(&mut s, o.branch_id.as_str()),
            }
            push_str(&mut s, " at B(");
            push_decimal(&mut s, o.fork_cursor);
            push_str(&mut s, ")");
            proof {
                assert(s@ =~= origin_label(project@.branches, x@));
            }
            s
        },
    }
}

/// Number of branches in the subtree of `root`.
fn count_subtree(project: &crate::project::TasProject, root: &str) -> (r: usize)
    requires
        crate::project::unique_branch_ids(project@.branches),
    ensures
        r == subtree_count(project@.branches, root@, project@.branches.len() as int),
{
    let ghost b = project@.branches;
    let mut count: usize = 0;
    let mut k: usize = 0;
    while k < project.branches.len()
        invariant
            crate::project::unique_branch_ids(project@.branches),
            b == project@.branches,
            0 <= k <= b.len(),
            count == subtree_count(b, root@, k as int),
            count <= k,
        decreases b.len() - k,
    {
        proof {
            assert(b[k as int] == project.branches@[k as int]@);
        }
        if project.in_subtree(root, project.branches[k].id.as_str()) {
            count += 1;
        }
        k += 1;
    }
    count
}

/// The entries of every branch of the session, root branches first, then by
/// id. Being strictly sorted, holding only entries of branches and having one
/// per branch, the list holds every branch's entry exactly once.
pub fn branch_entries(session: &TasEditorSession) -> (r: Vec<BranchNavigatorEntry>)
    requires
        session@.wf(),
    ensures
        r@.len() == session@.current.project.branches.len(),
        entries_sorted(r@),
        forall|p: int| 0 <= p < r@.len() ==> is_branch_entry(session@, #[trigger] entries_view(r@)[p]),
{
    let unsorted = unsorted_entries(session);
    let r = sort_entries(&unsorted);
    proof {
        let b = session@.current.project.branches;
        let sel = session@.branch().id;
        assert forall|p: int| 0 <= p < r@.len() implies is_branch_entry(session@, #[trigger] entries_view(r@)[p]) by {
            let u = entries_view(unsorted@);
            assert(u.contains(entries_view(r@)[p]));
            let q = choose|q: int| 0 <= q < u.len() && u[q] == entries_view(r@)[p];
            assert(u[q] == entry_model(b, sel, q));
            assert(entries_view(r@)[p] == entry_model(b, sel, q));
        }
    }
    r
}

/// `e` is the entry of some branch of the session.
pub open spec fn is_branch_entry(s: crate::session::SessionModel, e: EntryModel) -> bool {
    exists|k: int| 0 <= k < s.current.project.branches.len() && e == #[trigger] entry_model(s.current.project.branches, s.branch().id, k)
}

/// The entry of every branch, in project order.
fn unsorted_entries(session: &TasEditorSession) -> (r: Vec<BranchNavigatorEntry>)
    requires
        session@.wf(),
    ensures
        r@.len() == session@.current.project.branches.len(),
        forall|p: int| 0 <= p < r@.len() ==> #[trigger] entries_view(r@)[p] == entry_model(session@.current.project.branches, session@.branch().id, p),
        forall|p: int, q: int| 0 <= p < q < r@.len() ==> (#[trigger] r@[p])@.id != (#[trigger] r@[q])@.id,
{
    let project = session.project();
    let ghost b = project@.branches;
    let selected = session.selected_branch_id();
    let ghost sel = selected@;
    let mut out: Vec<BranchNavigatorEntry> = Vec::new();
    let mut k: usize = 0;
    while k < project.branches.len()
        invariant
            crate::project::unique_branch_ids(b),
            b == project@.branches,
            sel == selected@,
            0 <= k <= b.len(),
            out@.len() == k,
            forall|p: int| 0 <= p < k ==> #[trigger] entries_view(out@)[p] == entry_model(b, sel, p),
            forall|p: int| 0 <= p < k ==> (#[trigger] out@[p])@.id == b[p].id,
        decreases b.len() - k,
    {
        let branch = &project.branches[k];
        proof {
            assert(b[k as int] == project.branches@[k as int]@);
        }
        let entry = BranchNavigatorEntry {
            id: string_of(branch.id.as_str()),
            name: string_of(branch.name.as_str()),
            origin: origin_of(project, branch),
            frame_count: branch.frame_count(),
            active: crate::text::str_eq(branch.id.as_str(), selected),
            root: branch.parent.is_none(),
            subtree_size: count_subtree(project, branch.id.as_str()),
            contains_active: project.in_subtree(branch.id.as_str(), selected),
        };
        proof {
            reveal(entry_model);
            assert(entry@ == entry_model(b, sel, k as int));
        }
        let ghost before = out@;
        out.push(entry);
        proof {
            assert forall|p: int| 0 <= p < k + 1 implies #[trigger] entries_view(out@)[p] == entry_model(b, sel, p) by {
                assert(entries_view(out@)[p] == out@[p]@);
                if p < k {
                    assert(out@[p] == before[p]);
                    assert(entries_view(before)[p] == before[p]@);
                }
            }
            assert forall|p: int| 0 <= p < k + 1 implies (#[trigger] out@[p])@.id == b[p].id by {
                if p < k {
                    assert(out@[p] == before[p]);
                }
            }
        }
        k += 1;
    }
    proof {
        assert forall|p: int, q: int| 0 <= p < q < out@.len() implies (#[trigger] out@[p])@.id != (#[trigger] out@[q])@.id by {
            assert(b[p].id != b[q].id);
        }
    }
    out
}

/// The entries sorted (root branches first, then by id); the ids must be distinct.
fn sort_entries(entries: &Vec<BranchNavigatorEntry>) -> (r: Vec<BranchNavigatorEntry>)
    requires
        forall|p: int, q: int| 0 <= p < q < entries@.len() ==> (#[trigger] entries@[p])@.id != (#[trigger] entries@[q])@.id,
    ensures
        r@.len() == entries@.len(),
        entries_sorted(r@),
        forall|p: int| 0 <= p < r@.len() ==> entries_view(entries@).contains(#[trigger] entries_view(r@)[p]),
{
    let mut out: Vec<BranchNavigatorEntry> = Vec::new();
    let mut k: usize = 0;
    while k < entries.len()
        invariant
            0 <= k <= entries@.len(),
            forall|p: int, q: int| 0 <= p < q < entries@.len() ==> (#[trigger] entries@[p])@.id != (#[trigger] entries@[q])@.id,
            out@.len() == k,
            entries_sorted(out@),
            forall|p: int| 0 <= p < out@.len() ==> entries_view(entries@).take(k as int).contains(#[trigger] entries_view(out@)[p]),
        decreases entries@.len() - k,
    {
        let entry = entries[k].clone_entry();
        let mut pos: usize = 0;
        while pos < out.len() && entry_before(&out[pos], &entry)
            invariant
                0 <= pos <= out@.len(),
                forall|p: int| 0 <= p < pos ==> entry_lt(#[trigger] out@[p]@, entry@),
            decreases out@.len() - pos,
        {
            pos += 1;
        }
        let ghost before = out@;
        proof {
            assert forall|p: int| 0 <= p < before.len() implies (#[trigger] before[p])@.id != entry@.id by {
                assert(entries_view(before)[p] == before[p]@);
                let t = entries_view(entries@).take(k as int);
                let q = choose|q: int| 0 <= q < t.len() && t[q] == entries_view(before)[p];
                assert(t[q] == entries@[q]@);
                assert(entries@[q]@.id != entries@[k as int]@.id);
            }
        }
        out.insert(pos, entry);
        proof {
            lemma_sorted_insert(before, entry, pos as int, out@);
            let t1 = entries_view(entries@).take(k + 1);
            let t0 = entries_view(entries@).take(k as int);
            assert forall|p: int| 0 <= p < out@.len() implies t1.contains(#[trigger] entries_view(out@)[p]) by {
                assert(entries_view(out@)[p] == out@[p]@);
                if p == pos {
                    assert(t1[k as int] == entries@[k as int]@);
                } else {
                    let pp = if p < pos { p } else { p - 1 };
                    assert(out@[p] == before[pp]);
                    assert(entries_view(before)[pp] == before[pp]@);
                    let q = choose|q: int| 0 <= q < t0.len() && t0[q] == entries_view(before)[pp];
                    assert(t1[q] == t0[q]);
                }
            }
        }
        k += 1;
    }
    proof {
        assert(entries_view(entries@).take(k as int) =~= entries_view(entries@));
    }
    out
}

impl BranchNavigatorEntry {
    pub fn clone_entry(&self) -> (r: Self)
        ensures
            r@ == self@,
    {
        BranchNavigatorEntry {
            id: string_of(self.id.as_str()),
            name: string_of(self.name.as_str()),
            origin: string_of(self.origin.as_str()),
            frame_count: self.frame_count,
            active: self.active,
            root: self.root,
            subtree_size: self.subtree_size,
            contains_active: self.contains_active,
        }
    }
}

/// The entries' views are sorted.
pub open spec fn entries_sorted(s: Seq<BranchNavigatorEntry>) -> bool {
    forall|p: int, q: int| 0 <= p < q < s.len() ==> entry_lt(#[trigger] s[p]@, #[trigger] s[q]@)
}

/// The views of a list of entries.
pub open spec fn entries_view(s: Seq<BranchNavigatorEntry>) -> Seq<EntryModel> {
    s.map_values(|e: BranchNavigatorEntry| e@)
}

proof fn lemma_sorted_insert(before: Seq<BranchNavigatorEntry>, x: BranchNavigatorEntry, pos: int, after: Seq<BranchNavigatorEntry>)
    requires
        0 <= pos <= before.len(),
        after == before.insert(pos, x),
        entries_sorted(before),
        forall|p: int| 0 <= p < pos ==> entry_lt(#[trigger] before[p]@, x@),
        pos < before.len() ==> !entry_lt(before[pos]@, x@),
        forall|p: int| 0 <= p < before.len() ==> (#[trigger] before[p])@.id != x@.id,
    ensures
        entries_sorted(after),
{
    assert forall|p: int| pos <= p < before.len() implies entry_lt(x@, #[trigger] before[p]@) by {
        lemma_entry_lt_total(x@, before[pos]@);
        if p > pos {
            assert(entry_lt(before[pos]@, before[p]@));
            lemma_entry_lt_transitive(x@, before[pos]@, before[p]@);
        }
    }
    assert forall|p: int, q: int| 0 <= p < q < after.len() implies entry_lt(#[trigger] after[p]@, #[trigger] after[q]@) by {
        if q < pos {
            assert(after[p] == before[p] && after[q] == before[q]);
        } else if q == pos {
            assert(after[p] == before[p] && after[q] == x);
        } else if p == pos {
            assert(after[p] == x && after[q] == before[q - 1]);
        } else if p < pos {
            assert(after[p] == before[p] && after[q] == before[q - 1]);
            lemma_entry_lt_transitive(before[p]@, x@, before[q - 1]@);
        } else {
            assert(after[p] == before[p - 1] && after[q] == before[q - 1]);
        }
    }
}

/// The id `branch-n`.
pub open spec fn generated_id(n: nat) -> Seq<char> {
    "branch-"@ + decimal(n)
}

/// The name `Branch n`.
pub open spec fn generated_name(n: nat) -> Seq<char> {
    "Branch "@ + decimal(n)
}

/// The first `branch-n` (n from 1) that names no branch, with its name
/// `Branch n`; `None` only when every number up to one more than the number
/// of branches is taken.
pub fn suggested_branch_identity(session: &TasEditorSession) -> (r: Option<(String, String)>)
    requires
        session@.wf(),
    ensures
        ({
            let p = session@.current.project;
            match r {
                Some((id, name)) => exists|n: nat| 1 <= n <= p.branches.len() + 1 && id@ == generated_id(n) && name@ == generated_name(n)
                    && !p.has_branch(generated_id(n))
                    && forall|m: nat| 1 <= m < n ==> p.has_branch(#[trigger] generated_id(m)),
                None => p.branches.len() >= u64::MAX - 1 || forall|m: nat| 1 <= m <= p.branches.len() + 1 ==> p.has_branch(#[trigger] generated_id(m)),
            }
        }),
{
    let project = session.project();
    let count = project.branches.len();
    if count as u64 >= u64::MAX - 1 {
        return None;
    }
    let limit = count as u64;
    let mut number: u64 = 1;
    while number <= limit + 1
        invariant
            session@.wf(),
            project@ == session@.current.project,
            limit == project@.branches.len(),
            limit < u64::MAX - 1,
            1 <= number <= limit + 2,
            forall|m: nat| 1 <= m < number ==> project@.has_branch(#[trigger] generated_id(m)),
        decreases limit + 2 - number,
    {
        let mut id = string_of("branch-");
        push_decimal(&mut id, number);
        proof {
            assert(id@ =~= generated_id(number as nat));
        }
        if project.branch_index(id.as_str()).is_none() {
            let mut name = string_of("Branch ");
            push_decimal(&mut name, number);
            proof {
                assert(name@ =~= generated_name(number as nat));
            }
            return Some((id, name));
        }
        number += 1;
    }
    None
}

/// The action that creates the suggested branch.
pub fn generated_branch_action(session: &TasEditorSession) -> (r: Option<TasEditorAction>)
    requires
        session@.wf(),
    ensures
        match r {
            Some(TasEditorAction::ForkBranch { id, name }) => exists|n: nat| id@ == generated_id(n) && name@ == generated_name(n)
                && !session@.current.project.has_branch(generated_id(n))
                && forall|m: nat| 1 <= m < n ==> session@.current.project.has_branch(#[trigger] generated_id(m)),
            Some(_) => false,
            None => session@.current.project.branches.len() >= u64::MAX - 1
                || forall|m: nat| 1 <= m <= session@.current.project.branches.len() + 1
                    ==> session@.current.project.has_branch(#[trigger] generated_id(m)),
        },
{
    match suggested_branch_identity(session) {
        Some((id, name)) => Some(TasEditorAction::ForkBranch { id, name }),
        None => None,
    }
}

/// Whether a branch may be created now: at the game's boundary while one is
/// linked, otherwise whenever the live session leaves the editor unlocked.
pub fn branch_creation_enabled(session: &TasEditorSession, live_status: &TasEditorLiveStatus) -> (r: bool)
    ensures
        r == match spec_execution_boundary(*live_status) {
            Some(boundary) => session@.cursor() == boundary,
            None => !spec_locks_editor(*live_status),
        },
{
    match live_status.execution_boundary() {
        Some(boundary) => session.cursor() == boundary,
        None => !live_status.locks_editor(),
    }
}

/// Whether another branch may be selected.
pub fn branch_selection_enabled(live_status: &TasEditorLiveStatus) -> (r: bool)
    ensures
        r == !spec_holds_authority(*live_status),
{
    !live_status.holds_authority()
}

/// Whether the active branch may be renamed.
pub fn branch_rename_enabled(recording_stopped: bool, live_status: &TasEditorLiveStatus) -> (r: bool)
    ensures
        r == (recording_stopped && !spec_holds_authority(*live_status)),
{
    recording_stopped && branch_selection_enabled(live_status)
}

/// Whether a branch may be deleted.
pub fn branch_deletion_enabled(recording_stopped: bool, live_status: &TasEditorLiveStatus) -> (r: bool)
    ensures
        r == (recording_stopped && !spec_holds_authority(*live_status)),
{
    recording_stopped && !live_status.holds_authority()
}

/// The ids of `branch_id` and of every branch descending from it.
pub fn branch_subtree_ids(session: &TasEditorSession, branch_id: &str) -> (r: Vec<String>)
    requires
        session@.wf(),
    ensures
        forall|k: int| 0 <= k < r@.len() ==> in_subtree(session@.current.project.branches, branch_id@, #[trigger] r@[k]@),
        forall|k: int| 0 <= k < session@.current.project.branches.len()
            && in_subtree(session@.current.project.branches, branch_id@, #[trigger] session@.current.project.branches[k].id)
            ==> exists|j: int| 0 <= j < r@.len() && #[trigger] r@[j]@ == session@.current.project.branches[k].id,
{
    session.project().subtree_ids(branch_id)
}

/// Why a branch's delete button is or is not available.
pub fn branch_deletion_hint(entry: &BranchNavigatorEntry, recording_stopped: bool, live_status: &TasEditorLiveStatus) -> (r: &'static str)
    ensures
        r == if !recording_stopped {
            "Stop recording before deleting a branch"
        } else if spec_holds_authority(*live_status) {
            "Finish the live game decision before deleting a branch"
        } else if entry.active {
            "Switch to another branch before deleting this one"
        } else if entry.contains_active {
            "Switch outside this branch family before deleting it"
        } else {
            "Delete this branch and all of its descendants"
        },
{
    if !recording_stopped {
        "Stop recording before deleting a branch"
    } else if live_status.holds_authority() {
        "Finish the live game decision before deleting a branch"
    } else if entry.active {
        "Switch to another branch before deleting this one"
    } else if entry.contains_active {
        "Switch outside this branch family before deleting it"
    } else {
        "Delete this branch and all of its descendants"
    }
}

/// Why the create-branch button is or is not available.
pub fn branch_creation_hint(session: &TasEditorSession, live_status: &TasEditorLiveStatus, recording_stopped: bool) -> (r: &'static str)
    ensures
        r == if !recording_stopped {
            "Stop recording before creating a branch"
        } else if spec_execution_boundary(*live_status) is Some && spec_execution_boundary(*live_status).unwrap() != session@.cursor() {
            "Move the loaded game to the selected frame before creating a branch"
        } else {
            "Create and select a branch at the current frame"
        },
{
    if !recording_stopped {
        return "Stop recording before creating a branch";
    }
    match live_status.execution_boundary() {
        Some(boundary) => if boundary != session.cursor() {
            return "Move the loaded game to the selected frame before creating a branch";
        },
        None => {},
    }
    "Create and select a branch at the current frame"
}

/// The status line beside the create-branch button.
pub fn branch_creation_status(session: &TasEditorSession, live_status: &TasEditorLiveStatus, recording_stopped: bool) -> (r: String)
    ensures
        r@ == if !recording_stopped {
            "Stop recording before creating a branch."@
        } else if spec_execution_boundary(*live_status) is Some && spec_execution_boundary(*live_status).unwrap() != session@.cursor() {
            "Move the loaded game to before input frame "@ + decimal(session@.cursor() as nat) + " to branch here."@
        } else {
            "Ready: the new branch will start before input frame "@ + decimal(session@.cursor() as nat) + "."@
        },
{
    if !recording_stopped {
        return string_of("Stop recording before creating a branch.");
    }
    let cursor = session.cursor();
    let elsewhere = match live_status.execution_boundary() {
        Some(boundary) => boundary != cursor,
        None => false,
    };
    let mut s = if elsewhere {
        string_of("Move the loaded game to before input frame ")
    } else {
        string_of("Ready: the new branch will start before input frame ")
    };
    push_decimal(&mut s, cursor);
    if elsewhere {
        push_str(&mut s, " to branch here.");
    } else {
        push_str(&mut s, ".");
    }
    s
}

} // verus!
