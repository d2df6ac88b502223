//! Sets of frames held as sorted, disjoint half-open ranges.
use vstd::prelude::*;

use crate::limits::MAX_MARKED_INPUT_RANGES;

verus! {

/// Frame `f` lies in one of the ranges.
pub open spec fn in_ranges(r: Seq<(u64, u64)>, f: int) -> bool {
    exists|i: int| 0 <= i < r.len() && (#[trigger] r[i]).0 <= f < r[i].1
}

/// Every range is non-empty and ends within `frame_count`.
pub open spec fn ranges_within(r: Seq<(u64, u64)>, frame_count: u64) -> bool {
    forall|i: int| 0 <= i < r.len() ==> (#[trigger] r[i]).0 < r[i].1 <= frame_count
}

/// The ranges are non-empty, sorted, and separated by gaps: the unique
/// normal form of a set of frames.
pub open spec fn canonical(r: Seq<(u64, u64)>) -> bool {
    &&& forall|i: int| 0 <= i < r.len() ==> (#[trigger] r[i]).0 < r[i].1
    &&& forall|i: int, j: int| 0 <= i < j < r.len() ==> (#[trigger] r[i]).1 < (#[trigger] r[j]).0
}

/// Two range lists cover the same frames.
pub open spec fn same_frames(a: Seq<(u64, u64)>, b: Seq<(u64, u64)>) -> bool {
    forall|f: int| in_ranges(a, f) == in_ranges(b, f)
}

/// Total number of frames in the ranges.
pub open spec fn frame_total(r: Seq<(u64, u64)>) -> int
    decreases r.len(),
{
    if r.len() == 0 {
        0
    } else {
        frame_total(r.drop_last()) + (r.last().1 - r.last().0)
    }
}

/// Why a list of ranges was refused.
#[derive(Clone, Copy, Debug, PartialEq, Eq, Structural)]
pub enum TasRangeError {
    /// A range is empty or reaches past the end of the branch.
    OutsideBranch,
    /// The frames need more discontiguous ranges than the list holds.
    TooManyRanges,
    /// The list is not in normal form.
    NotNormalized,
    /// The frame total does not fit in 64 bits.
    FrameCountOverflow,
}

impl TasRangeError {
    /// A sentence for the user.
    pub open spec fn message_text(&self) -> Seq<char> {
        match self {
            TasRangeError::OutsideBranch => "marked input range is outside the active branch"@,
            TasRangeError::TooManyRanges => "mark at most 64 discontiguous input ranges"@,
            TasRangeError::NotNormalized => "marked input ranges must be sorted, disjoint, and normalized"@,
            TasRangeError::FrameCountOverflow => "marked input frame count overflows"@,
        }
    }

    pub fn message(&self) -> (r: &'static str)
        ensures
            r@ == self.message_text(),
    {
        match self {
            TasRangeError::OutsideBranch => "marked input range is outside the active branch",
            TasRangeError::TooManyRanges => "mark at most 64 discontiguous input ranges",
            TasRangeError::NotNormalized => "marked input ranges must be sorted, disjoint, and normalized",
            TasRangeError::FrameCountOverflow => "marked input frame count overflows",
        }
    }
}

proof fn lemma_canonical_first_start(r: Seq<(u64, u64)>, f: int)
    requires
        canonical(r),
        r.len() > 0,
        in_ranges(r, f),
    ensures
        r[0].0 <= f,
{
    let i = choose|i: int| 0 <= i < r.len() && (#[trigger] r[i]).0 <= f < r[i].1;
    if i > 0 {
        assert(r[0].1 < r[i].0);
    }
}

proof fn lemma_canonical_drop_first(r: Seq<(u64, u64)>, f: int)
    requires
        canonical(r),
        r.len() > 0,
    ensures
        canonical(r.drop_first()),
        in_ranges(r.drop_first(), f) <==> (in_ranges(r, f) && f >= r[0].1),
        in_ranges(r, f) <==> (r[0].0 <= f < r[0].1 || in_ranges(r.drop_first(), f)),
{
    let t = r.drop_first();
    assert forall|i: int, j: int| 0 <= i < j < t.len() implies (#[trigger] t[i]).1 < (
    #[trigger] t[j]).0 by {
        assert(t[i] == r[i + 1] && t[j] == r[j + 1]);
    }
    if in_ranges(t, f) {
        let i = choose|i: int| 0 <= i < t.len() && (#[trigger] t[i]).0 <= f < t[i].1;
        assert(r[i + 1] == t[i]);
        assert(r[0].1 < r[i + 1].0);
    }
    if in_ranges(r, f) && f >= r[0].1 {
        let i = choose|i: int| 0 <= i < r.len() && (#[trigger] r[i]).0 <= f < r[i].1;
        assert(i != 0);
        assert(t[i - 1] == r[i]);
    }
    if in_ranges(r, f) && !(r[0].0 <= f < r[0].1) {
        let i = choose|i: int| 0 <= i < r.len() && (#[trigger] r[i]).0 <= f < r[i].1;
        assert(t[i - 1] == r[i]);
    }
    if r[0].0 <= f < r[0].1 {
        assert(in_ranges(r, f));
    }
}

/// Two canonical lists that cover the same frames are the same list.
pub proof fn law_canonical_unique(a: Seq<(u64, u64)>, b: Seq<(u64, u64)>)
    requires
        canonical(a),
        canonical(b),
        same_frames(a, b),
    ensures
        a == b,
    decreases a.len() + b.len(),
{
    if a.len() == 0 && b.len() == 0 {
        assert(a =~= b);
    } else if a.len() == 0 {
        assert(in_ranges(b, b[0].0 as int));
        assert(!in_ranges(a, b[0].0 as int));
    } else if b.len() == 0 {
        assert(in_ranges(a, a[0].0 as int));
    } else {
        assert(in_ranges(a, a[0].0 as int));
        assert(in_ranges(b, b[0].0 as int));
        lemma_canonical_first_start(b, a[0].0 as int);
        lemma_canonical_first_start(a, b[0].0 as int);
        assert(a[0].0 == b[0].0);
        // the first ranges end together: the frame just past the shorter one
        // lies in a gap of that list but not of the other.
        if a[0].1 < b[0].1 {
            let f = a[0].1 as int;
            assert(in_ranges(b, f));
            lemma_canonical_drop_first(a, f);
            if in_ranges(a, f) {
                let t = a.drop_first();
                let i = choose|i: int| 0 <= i < t.len() && (#[trigger] t[i]).0 <= f < t[i].1;
                assert(t[i] == a[i + 1]);
                assert(a[0].1 < a[i + 1].0);
            }
        }
        if b[0].1 < a[0].1 {
            let f = b[0].1 as int;
            assert(in_ranges(a, f));
            lemma_canonical_drop_first(b, f);
            if in_ranges(b, f) {
                let t = b.drop_first();
                let i = choose|i: int| 0 <= i < t.len() && (#[trigger] t[i]).0 <= f < t[i].1;
                assert(t[i] == b[i + 1]);
                assert(b[0].1 < b[i + 1].0);
            }
        }
        assert(a[0] == b[0]);
        assert forall|f: int| in_ranges(a.drop_first(), f) == in_ranges(b.drop_first(), f) by {
            lemma_canonical_drop_first(a, f);
            lemma_canonical_drop_first(b, f);
        }
        lemma_canonical_drop_first(a, 0);
        lemma_canonical_drop_first(b, 0);
        law_canonical_unique(a.drop_first(), b.drop_first());
        assert(a =~= seq![a[0]] + a.drop_first());
        assert(b =~= seq![b[0]] + b.drop_first());
    }
}

proof fn lemma_in_ranges_concat(x: Seq<(u64, u64)>, y: Seq<(u64, u64)>, f: int)
    ensures
        in_ranges(x + y, f) == (in_ranges(x, f) || in_ranges(y, f)),
{
    let z = x + y;
    if in_ranges(z, f) {
        let i = choose|i: int| 0 <= i < z.len() && (#[trigger] z[i]).0 <= f < z[i].1;
        if i < x.len() {
            assert(x[i] == z[i]);
        } else {
            assert(y[i - x.len()] == z[i]);
        }
    }
    if in_ranges(x, f) {
        let i = choose|i: int| 0 <= i < x.len() && (#[trigger] x[i]).0 <= f < x[i].1;
        assert(z[i] == x[i]);
    }
    if in_ranges(y, f) {
        let i = choose|i: int| 0 <= i < y.len() && (#[trigger] y[i]).0 <= f < y[i].1;
        assert(z[i + x.len()] == y[i]);
    }
}

proof fn lemma_in_single(r: (u64, u64), f: int)
    ensures
        in_ranges(seq![r], f) == (r.0 <= f < r.1),
{
    if r.0 <= f < r.1 {
        assert(seq![r][0] == r);
    }
}

pub open spec fn insert_split_ok(c: Seq<(u64, u64)>, s: u64, e: u64, a: int, b: int, ms: u64, me: u64) -> bool {
    &&& canonical(c)
    &&& s < e
    &&& 0 <= a <= b <= c.len()
    &&& forall|k: int| 0 <= k < a ==> (#[trigger] c[k]).1 < s
    &&& a < c.len() ==> c[a].1 >= s
    &&& forall|k: int| a <= k < b ==> (#[trigger] c[k]).0 <= e
    &&& b < c.len() ==> c[b].0 > e
    &&& ms == (if a < b && c[a].0 < s { c[a].0 } else { s })
    &&& me == (if a < b && c[b - 1].1 > e { c[b - 1].1 } else { e })
}

proof fn lemma_insert_canonical(c: Seq<(u64, u64)>, s: u64, e: u64, a: int, b: int, ms: u64, me: u64)
    requires
        insert_split_ok(c, s, e, a, b, ms, me),
    ensures
        canonical(c.subrange(0, a) + seq![(ms, me)] + c.subrange(b, c.len() as int)),
{
    let out = c.subrange(0, a) + seq![(ms, me)] + c.subrange(b, c.len() as int);
    assert forall|x: int, y: int| 0 <= x < y < out.len() implies (#[trigger] out[x]).1 < (#[trigger] out[y]).0 by {
        if y < a {
            assert(out[x] == c[x] && out[y] == c[y]);
        } else if y == a {
            assert(out[x] == c[x]);
            if a < b {
                assert(c[x].1 < c[a].0);
            }
        } else if x < a {
            assert(out[x] == c[x]);
            assert(out[y] == c[y - a - 1 + b]);
        } else if x == a {
            assert(out[y] == c[y - a - 1 + b]);
            if y - a - 1 + b > b {
                assert(c[b].1 < c[y - a - 1 + b].0);
            }
            if a < b {
                assert(c[b - 1].1 < c[b].0);
            }
        } else {
            assert(out[x] == c[x - a - 1 + b]);
            assert(out[y] == c[y - a - 1 + b]);
        }
    }
    assert forall|x: int| 0 <= x < out.len() implies (#[trigger] out[x]).0 < out[x].1 by {
        if x < a {
            assert(out[x] == c[x]);
        } else if x > a {
            assert(out[x] == c[x - a - 1 + b]);
        }
    }
}

proof fn lemma_insert_coverage(c: Seq<(u64, u64)>, s: u64, e: u64, a: int, b: int, ms: u64, me: u64)
    requires
        insert_split_ok(c, s, e, a, b, ms, me),
    ensures
        forall|f: int| in_ranges(c.subrange(0, a) + seq![(ms, me)] + c.subrange(b, c.len() as int), f)
            == (in_ranges(c, f) || (s <= f < e)),
{
    let pre = c.subrange(0, a);
    let mid = c.subrange(a, b);
    let post = c.subrange(b, c.len() as int);
    assert(c =~= pre + mid + post);
    assert forall|f: int| in_ranges(pre + seq![(ms, me)] + post, f) == (in_ranges(c, f) || (s <= f < e)) by {
        lemma_in_ranges_concat(pre + seq![(ms, me)], post, f);
        lemma_in_ranges_concat(pre, seq![(ms, me)], f);
        lemma_in_single((ms, me), f);
        lemma_in_ranges_concat(pre + mid, post, f);
        lemma_in_ranges_concat(pre, mid, f);
        if in_ranges(mid, f) {
            let i = choose|i: int| 0 <= i < mid.len() && (#[trigger] mid[i]).0 <= f < mid[i].1;
            assert(mid[i] == c[a + i]);
            if a + i > a {
                assert(c[a].1 < c[a + i].0);
            }
            if a + i < b - 1 {
                assert(c[a + i].1 < c[b - 1].0);
            }
        }
        if ms <= f < me && !(s <= f < e) {
            if f < s {
                assert(mid[0] == c[a]);
                assert(mid[0].0 <= f < mid[0].1);
            } else {
                assert(mid[mid.len() - 1] == c[b - 1]);
                assert(mid[mid.len() - 1].0 <= f < mid[mid.len() - 1].1);
            }
        }
    }
}

/// Adds the frames `[s, e)` to a canonical list, merging the ranges that
/// overlap or touch it.
pub fn insert_range(canon: &Vec<(u64, u64)>, s: u64, e: u64) -> (r: Vec<(u64, u64)>)
    requires
        canonical(canon@),
        s < e,
    ensures
        canonical(r@),
        forall|f: int| in_ranges(r@, f) == (in_ranges(canon@, f) || (s <= f < e)),
        r@.len() <= canon@.len() + 1,
{
    let ghost c = canon@;
    let n = canon.len();
    // ranges strictly before [s, e) form a prefix
    let mut a: usize = 0;
    while a < n && canon[a].1 < s
        invariant
            n == c.len(),
            c == canon@,
            0 <= a <= n,
            forall|k: int| 0 <= k < a ==> (#[trigger] c[k]).1 < s,
        decreases n - a,
    {
        a += 1;
    }
    // ranges strictly after [s, e) form a suffix
    let mut b: usize = a;
    while b < n && canon[b].0 <= e
        invariant
            n == c.len(),
            c == canon@,
            a <= b <= n,
            forall|k: int| a <= k < b ==> (#[trigger] c[k]).0 <= e,
        decreases n - b,
    {
        b += 1;
    }
    let ms = if a < b && canon[a].0 < s {
        canon[a].0
    } else {
        s
    };
    let me = if a < b && canon[b - 1].1 > e {
        canon[b - 1].1
    } else {
        e
    };
    let mut out: Vec<(u64, u64)> = Vec::new();
    let mut k: usize = 0;
    while k < a
        invariant
            c == canon@,
            0 <= k <= a <= n,
            n == c.len(),
            out@ == c.subrange(0, k as int),
        decreases a - k,
    {
        out.push(canon[k]);
        proof {
            assert(out@ =~= c.subrange(0, k + 1));
        }
        k += 1;
    }
    out.push((ms, me));
    let mut j: usize = b;
    while j < n
        invariant
            c == canon@,
            a <= b <= j <= n,
            n == c.len(),
            out@ == c.subrange(0, a as int) + seq![(ms, me)] + c.subrange(b as int, j as int),
        decreases n - j,
    {
        out.push(canon[j]);
        proof {
            assert(out@ =~= c.subrange(0, a as int) + seq![(ms, me)] + c.subrange(b as int, j + 1));
        }
        j += 1;
    }
    proof {
        lemma_insert_canonical(c, s, e, a as int, b as int, ms, me);
        lemma_insert_coverage(c, s, e, a as int, b as int, ms, me);
    }
    out
}

/// The canonical form of `ranges` after checking that each one is a
/// non-empty range ending within `frame_count`.
pub open spec fn all_within(ranges: Seq<(u64, u64)>, frame_count: u64) -> bool {
    forall|i: int| 0 <= i < ranges.len() ==> (#[trigger] ranges[i]).0 < ranges[i].1 <= frame_count
}

/// Sorts, merges and bounds a list of marked ranges: the result is the
/// canonical list covering the same frames, at most
/// `MAX_MARKED_INPUT_RANGES` long.
pub fn normalize_ranges(ranges: Vec<(u64, u64)>, frame_count: u64) -> (r: Result<Vec<(u64, u64)>, TasRangeError>)
    ensures
        match r {
            Ok(v) => {
                &&& all_within(ranges@, frame_count)
                &&& canonical(v@)
                &&& same_frames(v@, ranges@)
                &&& all_within(v@, frame_count)
                &&& v@.len() <= MAX_MARKED_INPUT_RANGES
            },
            Err(TasRangeError::OutsideBranch) => !all_within(ranges@, frame_count),
            Err(TasRangeError::TooManyRanges) => {
                &&& all_within(ranges@, frame_count)
                &&& forall|w: Seq<(u64, u64)>|
                    canonical(w) && same_frames(w, ranges@) ==> w.len() > MAX_MARKED_INPUT_RANGES
            },
            Err(_) => false,
        },
{
    let mut i: usize = 0;
    while i < ranges.len()
        invariant
            0 <= i <= ranges@.len(),
            forall|k: int| 0 <= k < i ==> (#[trigger] ranges@[k]).0 < ranges@[k].1 <= frame_count,
        decreases ranges@.len() - i,
    {
        let (start, end) = ranges[i];
        if start >= end || end > frame_count {
            return Err(TasRangeError::OutsideBranch);
        }
        i += 1;
    }
    let mut canon: Vec<(u64, u64)> = Vec::new();
    let mut j: usize = 0;
    while j < ranges.len()
        invariant
            0 <= j <= ranges@.len(),
            all_within(ranges@, frame_count),
            canonical(canon@),
            forall|f: int| in_ranges(canon@, f) == in_ranges(ranges@.take(j as int), f),
        decreases ranges@.len() - j,
    {
        let (start, end) = ranges[j];
        let next = insert_range(&canon, start, end);
        proof {
            assert forall|f: int| in_ranges(next@, f) == in_ranges(ranges@.take(j + 1), f) by {
                assert(ranges@.take(j + 1) =~= ranges@.take(j as int) + seq![ranges@[j as int]]);
                lemma_in_ranges_concat(ranges@.take(j as int), seq![ranges@[j as int]], f);
                lemma_in_single(ranges@[j as int], f);
            }
        }
        canon = next;
        j += 1;
    }
    proof {
        assert(ranges@.take(ranges@.len() as int) =~= ranges@);
        assert forall|x: int| 0 <= x < canon@.len() implies (#[trigger] canon@[x]).0 < canon@[x].1 <= frame_count by {
            let f = canon@[x].1 - 1;
            assert(in_ranges(canon@, f));
            assert(in_ranges(ranges@, f));
            let k = choose|k: int| 0 <= k < ranges@.len() && (#[trigger] ranges@[k]).0 <= f < ranges@[k].1;
        }
    }
    if canon.len() > MAX_MARKED_INPUT_RANGES {
        proof {
            assert forall|w: Seq<(u64, u64)>| canonical(w) && same_frames(w, ranges@) implies w.len() > MAX_MARKED_INPUT_RANGES by {
                law_canonical_unique(w, canon@);
            }
        }
        return Err(TasRangeError::TooManyRanges);
    }
    Ok(canon)
}

/// Sum of the range lengths, refusing overflow.
pub fn selected_frame_count(ranges: &Vec<(u64, u64)>) -> (r: Result<u64, TasRangeError>)
    requires
        forall|i: int| 0 <= i < ranges@.len() ==> (#[trigger] ranges@[i]).0 <= ranges@[i].1,
    ensures
        match r {
            Ok(n) => n == frame_total(ranges@),
            Err(e) => e == TasRangeError::FrameCountOverflow && frame_total(ranges@) > u64::MAX,
        },
{
    let mut total: u64 = 0;
    let mut i: usize = 0;
    while i < ranges.len()
        invariant
            0 <= i <= ranges@.len(),
            forall|k: int| 0 <= k < ranges@.len() ==> (#[trigger] ranges@[k]).0 <= ranges@[k].1,
            total == frame_total(ranges@.take(i as int)),
        decreases ranges@.len() - i,
    {
        let (start, end) = ranges[i];
        proof {
            assert(ranges@.take(i + 1).drop_last() =~= ranges@.take(i as int));
        }
        if total > u64::MAX - (end - start) {
            proof {
                lemma_frame_total_prefix(ranges@, i + 1);
            }
            return Err(TasRangeError::FrameCountOverflow);
        }
        total = total + (end - start);
        i += 1;
    }
    proof {
        assert(ranges@.take(ranges@.len() as int) =~= ranges@);
    }
    Ok(total)
}

proof fn lemma_frame_total_prefix(r: Seq<(u64, u64)>, n: int)
    requires
        0 <= n <= r.len(),
        forall|i: int| 0 <= i < r.len() ==> (#[trigger] r[i]).0 <= r[i].1,
    ensures
        frame_total(r.take(n)) <= frame_total(r),
    decreases r.len() - n,
{
    if n < r.len() {
        let t = r.drop_last();
        assert(t.take(n) =~= r.take(n));
        assert forall|i: int| 0 <= i < t.len() implies (#[trigger] t[i]).0 <= t[i].1 by {
            assert(t[i] == r[i]);
        }
        lemma_frame_total_prefix(t, n);
    } else {
        assert(r.take(n) =~= r);
    }
}

/// Checks that a marked-range list is already in normal form for a branch of
/// `frame_count` frames.
pub fn validate_ranges(ranges: &Vec<(u64, u64)>, frame_count: u64) -> (r: Result<(), TasRangeError>)
    ensures
        r is Ok <==> (ranges@.len() <= MAX_MARKED_INPUT_RANGES && canonical(ranges@) && all_within(
            ranges@,
            frame_count,
        )),
{
    if ranges.len() > MAX_MARKED_INPUT_RANGES {
        return Err(TasRangeError::TooManyRanges);
    }
    let copy = copy_ranges(ranges);
    let normalized = match normalize_ranges(copy, frame_count) {
        Ok(v) => v,
        Err(e) => {
            proof {
                if canonical(ranges@) && all_within(ranges@, frame_count) {
                    if e == TasRangeError::TooManyRanges {
                        assert(same_frames(ranges@, ranges@));
                    }
                }
            }
            return Err(e);
        },
    };
    if !ranges_eq(&normalized, ranges) {
        proof {
            if canonical(ranges@) && all_within(ranges@, frame_count) {
                law_canonical_unique(normalized@, ranges@);
            }
        }
        return Err(TasRangeError::NotNormalized);
    }
    match selected_frame_count(ranges) {
        Ok(_) => Ok(()),
        Err(e) => {
            proof {
                lemma_frame_total_within(ranges@, frame_count);
            }
            Err(e)
        },
    }
}

proof fn lemma_frame_total_within(r: Seq<(u64, u64)>, frame_count: u64)
    requires
        canonical(r),
        all_within(r, frame_count),
    ensures
        frame_total(r) <= (if r.len() == 0 { 0 } else { r.last().1 as int }),
    decreases r.len(),
{
    reveal_with_fuel(frame_total, 2);
    if r.len() > 1 {
        let t = r.drop_last();
        assert forall|i: int, j: int| 0 <= i < j < t.len() implies (#[trigger] t[i]).1 < (#[trigger] t[j]).0 by {
            assert(t[i] == r[i] && t[j] == r[j]);
        }
        assert forall|i: int| 0 <= i < t.len() implies (#[trigger] t[i]).0 < t[i].1 <= frame_count by {
            assert(t[i] == r[i]);
        }
        lemma_frame_total_within(t, frame_count);
        assert(r[r.len() - 2].1 < r[r.len() - 1].0);
    }
}

/// A copy of a range list.
pub fn copy_ranges(ranges: &Vec<(u64, u64)>) -> (r: Vec<(u64, u64)>)
    ensures
        r@ == ranges@,
{
    let mut out: Vec<(u64, u64)> = Vec::new();
    let mut i: usize = 0;
    while i < ranges.len()
        invariant
            0 <= i <= ranges@.len(),
            out@ == ranges@.take(i as int),
        decreases ranges@.len() - i,
    {
        out.push(ranges[i]);
        proof {
            assert(out@ =~= ranges@.take(i + 1));
        }
        i += 1;
    }
    proof {
        assert(ranges@.take(ranges@.len() as int) =~= ranges@);
    }
    out
}

/// Whether two range lists are equal.
pub fn ranges_eq(a: &Vec<(u64, u64)>, b: &Vec<(u64, u64)>) -> (r: bool)
    ensures
        r == (a@ == b@),
{
    if a.len() != b.len() {
        return false;
    }
    let mut i: usize = 0;
    while i < a.len()
        invariant
            a@.len() == b@.len(),
            0 <= i <= a@.len(),
            forall|k: int| 0 <= k < i ==> a@[k] == b@[k],
        decreases a@.len() - i,
    {
        if a[i].0 != b[i].0 || a[i].1 != b[i].1 {
            return false;
        }
        i += 1;
    }
    proof {
        assert(a@ =~= b@);
    }
    true
}

} // verus!
