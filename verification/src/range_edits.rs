//! Edits applied within runs of frames: digital-control and special-input
//! transforms, applied to each run of a list of disjoint ranges in turn.
use vstd::prelude::*;

use crate::identity::{IdentityModel, TasProjectIdentity};
use crate::input::{
    TasDigitalInputMask, TasDigitalTransform, TasInputFrame, TasSpecialInputMask, TasSpecialTransform,
};
use crate::pattern::{spec_digital_transform, spec_special_transform, TasInputPattern};
use crate::project::{AssetModel, TasAsset, assets_view};
use crate::ranges::ranges_within;
use crate::special_input::{TasSpecialInputError, ensure_nondefault_input_authorable, spec_input_authorable};

verus! {

/// An edit of a run of frames: a transform of the masked digital controls or
/// of the masked special-input channels.
#[derive(Clone, Copy, Debug)]
pub enum TasRangeEdit {
    Digital { mask: TasDigitalInputMask, transform: TasDigitalTransform },
    Special { mask: TasSpecialInputMask, transform: TasSpecialTransform },
}

/// The digital-control edit with this mask and transform.
pub open spec fn digital_edit(mask: TasDigitalInputMask, transform: TasDigitalTransform) -> TasRangeEdit {
    TasRangeEdit::Digital { mask, transform }
}

/// The special-input edit with this mask and transform.
pub open spec fn special_edit(mask: TasSpecialInputMask, transform: TasSpecialTransform) -> TasRangeEdit {
    TasRangeEdit::Special { mask, transform }
}

/// The run after the edit.
pub open spec fn spec_range_edit(run: Seq<TasInputFrame>, edit: TasRangeEdit) -> Seq<TasInputFrame> {
    match edit {
        TasRangeEdit::Digital { mask, transform } => spec_digital_transform(run, mask, transform),
        TasRangeEdit::Special { mask, transform } => spec_special_transform(run, mask, transform),
    }
}

/// Applies the edit to a run.
pub fn apply_range_edit(run: &TasInputPattern, edit: TasRangeEdit) -> (r: TasInputPattern)
    ensures
        r@ == spec_range_edit(run@, edit),
{
    match edit {
        TasRangeEdit::Digital { mask, transform } => run.with_digital_transform(mask, transform),
        TasRangeEdit::Special { mask, transform } => run.with_special_transform(mask, transform),
    }
}

/// `frames` with the run `start..end` replaced by `run`.
pub open spec fn splice_run(frames: Seq<TasInputFrame>, start: int, end: int, run: Seq<TasInputFrame>) -> Seq<TasInputFrame> {
    frames.take(start) + run + frames.skip(end)
}

/// The frames after the transform is applied to the first `n` ranges, one
/// after the other.
pub open spec fn transform_ranges(
    frames: Seq<TasInputFrame>,
    ranges: Seq<(u64, u64)>,
    edit: TasRangeEdit,
    n: int,
) -> Seq<TasInputFrame>
    decreases n,
{
    if n <= 0 {
        frames
    } else {
        let w = transform_ranges(frames, ranges, edit, n - 1);
        let (s, e) = ranges[n - 1];
        splice_run(w, s as int, e as int, spec_range_edit(w.subrange(s as int, e as int), edit))
    }
}

/// Whether the transform changes range `n - 1` given the first `n - 1` are done.
pub open spec fn range_changes(
    frames: Seq<TasInputFrame>,
    ranges: Seq<(u64, u64)>,
    edit: TasRangeEdit,
    n: int,
) -> bool {
    let w = transform_ranges(frames, ranges, edit, n - 1);
    let (s, e) = ranges[n - 1];
    spec_range_edit(w.subrange(s as int, e as int), edit) != w.subrange(s as int, e as int)
}

/// Every frame of every changed range among the first `n` may be held by the project.
pub open spec fn ranges_authorable(
    identity: IdentityModel,
    assets: Seq<AssetModel>,
    frames: Seq<TasInputFrame>,
    ranges: Seq<(u64, u64)>,
    edit: TasRangeEdit,
    n: int,
) -> bool
    decreases n,
{
    if n <= 0 {
        true
    } else {
        &&& ranges_authorable(identity, assets, frames, ranges, edit, n - 1)
        &&& range_changes(frames, ranges, edit, n) ==> {
            let w = transform_ranges(frames, ranges, edit, n - 1);
            let (s, e) = ranges[n - 1];
            forall|k: int| 0 <= k < e - s ==> spec_input_authorable(identity, assets,
                #[trigger] spec_range_edit(w.subrange(s as int, e as int), edit)[k])
        }
    }
}

/// The changed ranges among the first `n`, in order.
pub open spec fn changed_ranges(
    frames: Seq<TasInputFrame>,
    ranges: Seq<(u64, u64)>,
    edit: TasRangeEdit,
    n: int,
) -> Seq<(u64, u64)>
    decreases n,
{
    if n <= 0 {
        Seq::empty()
    } else {
        let rest = changed_ranges(frames, ranges, edit, n - 1);
        if range_changes(frames, ranges, edit, n) { rest.push(ranges[n - 1]) } else { rest }
    }
}

/// Editing ranges keeps the number of frames.
pub proof fn lemma_transform_len(frames: Seq<TasInputFrame>, ranges: Seq<(u64, u64)>, edit: TasRangeEdit, n: int)
    requires
        0 <= n <= ranges.len(),
        ranges_within(ranges, frames.len() as u64),
        frames.len() <= u64::MAX,
    ensures
        transform_ranges(frames, ranges, edit, n).len() == frames.len(),
    decreases n,
{
    if n > 0 {
        lemma_transform_len(frames, ranges, edit, n - 1);
        let (s, e) = ranges[n - 1];
        assert(ranges[n - 1].0 < ranges[n - 1].1 <= frames.len());
    }
}

/// Applies the transform to every marked range of `frames`; returns the new
/// frames and the ranges that changed. Every frame of a changed range must be
/// one the project may hold.
pub fn transform_marked_ranges(
    frames: &Vec<TasInputFrame>,
    ranges: &Vec<(u64, u64)>,
    edit: TasRangeEdit,
    identity: &TasProjectIdentity,
    assets: &Vec<TasAsset>,
) -> (r: Result<(Vec<TasInputFrame>, Vec<(u64, u64)>), TasSpecialInputError>)
    requires
        ranges_within(ranges@, frames@.len() as u64),
        frames@.len() <= u64::MAX,
    ensures
        match r {
            Ok((w, changed)) => ranges_authorable(identity@, assets_view(assets@), frames@, ranges@, edit, ranges@.len() as int)
                && w@ == transform_ranges(frames@, ranges@, edit, ranges@.len() as int)
                && changed@ == changed_ranges(frames@, ranges@, edit, ranges@.len() as int),
            Err(_) => !ranges_authorable(identity@, assets_view(assets@), frames@, ranges@, edit, ranges@.len() as int),
        },
{
    let mut work: Vec<TasInputFrame> = crate::pattern::copy_frames(frames);
    let mut changed: Vec<(u64, u64)> = Vec::new();
    let ghost id = identity@;
    let ghost av = assets_view(assets@);
    let mut k: usize = 0;
    while k < ranges.len()
        invariant
            0 <= k <= ranges@.len(),
            ranges_within(ranges@, frames@.len() as u64),
            frames@.len() <= u64::MAX,
            id == identity@,
            av == assets_view(assets@),
            work@ == transform_ranges(frames@, ranges@, edit, k as int),
            work@.len() == frames@.len(),
            changed@ == changed_ranges(frames@, ranges@, edit, k as int),
            ranges_authorable(id, av, frames@, ranges@, edit, k as int),
        decreases ranges@.len() - k,
    {
        let (s, e) = ranges[k];
        proof {
            assert(ranges@[k as int].0 < ranges@[k as int].1 <= frames@.len());
        }
        let wn = work.len();
        proof {
            assert(s < e && e <= wn);
        }
        let first = s as usize;
        let last = e as usize;
        let mut run: Vec<TasInputFrame> = Vec::new();
        let mut x: usize = first;
        while x < last
            invariant
                first <= x <= last,
                first == s,
                last == e,
                last <= work@.len(),
                run@ == work@.subrange(s as int, x as int),
            decreases last - x,
        {
            run.push(work[x]);
            x += 1;
            proof {
                assert(run@ =~= work@.subrange(s as int, x as int));
            }
        }
        let original = TasInputPattern { frames: run };
        let edited = apply_range_edit(&original, edit);
        let differs = !edited.same_as(&original);
        if differs {
            let mut failure: Option<TasSpecialInputError> = None;
            let mut y: usize = 0;
            while y < edited.frames.len() && failure.is_none()
                invariant
                    0 <= y <= edited@.len(),
                    id == identity@,
                    av == assets_view(assets@),
                    failure is None ==> forall|j: int| 0 <= j < y ==> spec_input_authorable(id, av, #[trigger] edited@[j]),
                    failure is Some ==> y < edited@.len() && !spec_input_authorable(id, av, edited@[y as int]),
                decreases edited@.len() - y + (if failure is None { 1int } else { 0int }),
            {
                match ensure_nondefault_input_authorable(identity, assets, edited.frames[y]) {
                    Ok(()) => {
                        y += 1;
                    },
                    Err(err) => {
                        failure = Some(err);
                    },
                }
            }
            match failure {
                Some(err) => {
                    proof {
                        lemma_authorable_stops(frames@, ranges@, edit, k as int, id, av, y as int);
                    }
                    return Err(err);
                },
                None => {},
            }
            let mut next: Vec<TasInputFrame> = Vec::new();
            let n = work.len();
            let mut z: usize = 0;
            while z < n
                invariant
                    n == work@.len(),
                    0 <= z <= n,
                    s < e <= n,
                    edited@.len() == e - s,
                    next@ == splice_run(work@, s as int, e as int, edited@).take(z as int),
                decreases n - z,
            {
                let f = if (z as u64) < s || (z as u64) >= e { work[z] } else { edited.frames[z - s as usize] };
                next.push(f);
                z += 1;
                proof {
                    assert(next@ =~= splice_run(work@, s as int, e as int, edited@).take(z as int));
                }
            }
            proof {
                assert(next@ =~= splice_run(work@, s as int, e as int, edited@));
            }
            work = next;
            changed.push((s, e));
        }
        proof {
            lemma_transform_len(frames@, ranges@, edit, k + 1);
            if !differs {
                assert(splice_run(work@, s as int, e as int, edited@) =~= work@);
            }
        }
        k += 1;
    }
    Ok((work, changed))
}

/// A frame of one range that the project may not hold makes the whole edit
/// unauthorable.
pub proof fn lemma_authorable_stops(
    frames: Seq<TasInputFrame>,
    ranges: Seq<(u64, u64)>,
    edit: TasRangeEdit,
    k: int,
    id: IdentityModel,
    av: Seq<AssetModel>,
    y: int,
)
    requires
        0 <= k < ranges.len(),
        range_changes(frames, ranges, edit, k + 1),
        ({
            let w = transform_ranges(frames, ranges, edit, k);
            let (s, e) = ranges[k];
            0 <= y < e - s && !spec_input_authorable(id, av, spec_range_edit(w.subrange(s as int, e as int), edit)[y])
        }),
    ensures
        !ranges_authorable(id, av, frames, ranges, edit, ranges.len() as int),
    decreases ranges.len() - k,
{
    lemma_authorable_prefix(id, av, frames, ranges, edit, k + 1, ranges.len() as int);
}

/// An edit unauthorable over its first ranges stays so over more of them.
pub proof fn lemma_authorable_prefix(
    id: IdentityModel,
    av: Seq<AssetModel>,
    frames: Seq<TasInputFrame>,
    ranges: Seq<(u64, u64)>,
    edit: TasRangeEdit,
    a: int,
    b: int,
)
    requires
        0 <= a <= b,
        !ranges_authorable(id, av, frames, ranges, edit, a),
    ensures
        !ranges_authorable(id, av, frames, ranges, edit, b),
    decreases b - a,
{
    if a < b {
        lemma_authorable_prefix(id, av, frames, ranges, edit, a, b - 1);
    }
}

/// The changed ranges of canonical ranges are themselves canonical, each
/// one of the first `n` ranges.
pub proof fn lemma_changed_canonical(frames: Seq<TasInputFrame>, ranges: Seq<(u64, u64)>, edit: TasRangeEdit, n: int)
    requires
        0 <= n <= ranges.len(),
        crate::ranges::canonical(ranges),
    ensures
        crate::ranges::canonical(changed_ranges(frames, ranges, edit, n)),
        forall|k: int| 0 <= k < changed_ranges(frames, ranges, edit, n).len() ==> exists|i: int|
            0 <= i < n && #[trigger] changed_ranges(frames, ranges, edit, n)[k] == ranges[i],
    decreases n,
{
    if n > 0 {
        lemma_changed_canonical(frames, ranges, edit, n - 1);
        let rest = changed_ranges(frames, ranges, edit, n - 1);
        if range_changes(frames, ranges, edit, n) {
            let c = rest.push(ranges[n - 1]);
            assert forall|k: int| 0 <= k < c.len() implies exists|i: int| 0 <= i < n && #[trigger] c[k] == ranges[i] by {
                if k < rest.len() {
                    let i = choose|i: int| 0 <= i < n - 1 && rest[k] == ranges[i];
                    assert(c[k] == ranges[i]);
                } else {
                    assert(c[k] == ranges[n - 1]);
                }
            }
            assert forall|a: int, b: int| 0 <= a < b < c.len() implies (#[trigger] c[a]).1 < (#[trigger] c[b]).0 by {
                let i = choose|i: int| 0 <= i < n - 1 && rest[a] == ranges[i];
                assert(c[a] == ranges[i]);
                if b < rest.len() {
                    assert(c[b] == rest[b]);
                } else {
                    assert(ranges[i].1 < ranges[n - 1].0);
                }
            }
        }
    }
}

/// An edit that changes no range leaves the frames as they were.
pub proof fn lemma_no_change(frames: Seq<TasInputFrame>, ranges: Seq<(u64, u64)>, edit: TasRangeEdit, n: int)
    requires
        0 <= n <= ranges.len(),
        ranges_within(ranges, frames.len() as u64),
        frames.len() <= u64::MAX,
        changed_ranges(frames, ranges, edit, n).len() == 0,
    ensures
        transform_ranges(frames, ranges, edit, n) == frames,
    decreases n,
{
    if n > 0 {
        let rest = changed_ranges(frames, ranges, edit, n - 1);
        if range_changes(frames, ranges, edit, n) {
            assert(changed_ranges(frames, ranges, edit, n).len() == rest.len() + 1);
        }
        lemma_no_change(frames, ranges, edit, n - 1);
        let w = transform_ranges(frames, ranges, edit, n - 1);
        let (s, e) = ranges[n - 1];
        assert(ranges[n - 1].0 < ranges[n - 1].1 <= frames.len());
        assert(splice_run(w, s as int, e as int, w.subrange(s as int, e as int)) =~= w);
    }
}

} // verus!
