//! Partitioning of a resource's bytes into contiguous ranges, one per
//! concurrent segment worker.

use vstd::prelude::*;

verus! {

/// The most segments a transfer is split into.
pub const MAX_THREADS: usize = 999;

/// One byte range of a planned transfer: `len` bytes starting at `start`.
/// Its inclusive end offset is `start + len - 1` (see `end_offset`).
#[derive(Clone, Copy, Debug, PartialEq, Eq, Structural)]
pub struct Segment {
    pub index: usize,
    pub start: u64,
    pub len: u64,
}

impl Segment {
    /// The inclusive last offset of the range (one below `start` when empty).
    pub open spec fn end(self) -> int {
        self.start + self.len - 1
    }

    /// The inclusive last offset; the range must not be empty.
    pub fn end_offset(&self) -> (r: u64)
        requires
            self.len > 0,
            self.start + self.len <= u64::MAX + 1,
        ensures
            r == self.end(),
    {
        self.start + (self.len - 1)
    }
}

/// Bytes given to every segment but the last.
pub open spec fn base_len(total: nat, t: nat) -> nat {
    if t == 0 { 0 } else { total / t }
}

/// Start offset of segment `i` of a plan of `t` segments over `total` bytes.
pub open spec fn planned_start(total: nat, t: nat, i: nat) -> nat {
    i * base_len(total, t)
}

/// Length of segment `i`; the last one absorbs the remainder.
pub open spec fn planned_len(total: nat, t: nat, i: nat) -> nat {
    if i + 1 < t {
        base_len(total, t)
    } else {
        (total - (t - 1) * base_len(total, t)) as nat
    }
}

/// The segment a plan puts at position `i`.
pub open spec fn planned_segment(total: nat, t: nat, i: nat) -> Segment {
    Segment {
        index: i as usize,
        start: planned_start(total, t, i) as u64,
        len: planned_len(total, t, i) as u64,
    }
}

/// Sum of the lengths of the first `k` segments of a plan.
pub open spec fn sum_lens(segs: Seq<Segment>, k: nat) -> nat
    decreases k,
{
    if k == 0 || k > segs.len() {
        0
    } else {
        sum_lens(segs, (k - 1) as nat) + segs[k - 1].len as nat
    }
}

/// The number of segments used for a requested thread count: 999 when none
/// is given, otherwise the request clamped into `[1, 999]`.
pub open spec fn clamped_threads(requested: Option<usize>) -> nat {
    match requested {
        None => MAX_THREADS as nat,
        Some(n) => if n < 1 { 1 } else if n > MAX_THREADS { MAX_THREADS as nat } else { n as nat },
    }
}

pub fn clamp_thread_count(requested: Option<usize>) -> (r: usize)
    ensures
        r == clamped_threads(requested),
        1 <= r <= MAX_THREADS,
{
    match requested {
        None => MAX_THREADS,
        Some(n) => if n < 1 { 1 } else if n > MAX_THREADS { MAX_THREADS } else { n },
    }
}

proof fn lemma_plan_bounds(total: nat, t: nat, i: nat)
    requires
        1 <= t,
        i < t,
    ensures
        planned_start(total, t, i) + planned_len(total, t, i) <= total,
        i + 1 < t ==> planned_start(total, t, i) + planned_len(total, t, i) == planned_start(total, t, i + 1),
        i + 1 == t ==> planned_start(total, t, i) + planned_len(total, t, i) == total,
{
    let b = total / t;
    assert(b * t <= total) by (nonlinear_arith)
        requires b == total / t, t >= 1;
    assert((t - 1) * b <= t * b) by (nonlinear_arith)
        requires t >= 1;
    assert(i * b + b == (i + 1) * b) by (nonlinear_arith);
    if i + 1 < t {
        assert((i + 1) * b <= t * b) by (nonlinear_arith)
            requires i + 1 <= t;
    }
}

/// Splits `total_size` bytes into `thread_count` contiguous segments: each
/// but the last gets `total_size / thread_count` bytes, the last gets the rest.
pub fn plan_segments(total_size: u64, thread_count: usize) -> (r: Vec<Segment>)
    requires
        1 <= thread_count <= MAX_THREADS,
    ensures
        r@.len() == thread_count,
        forall|i: int| 0 <= i < r@.len() ==> #[trigger] r@[i] == planned_segment(
            total_size as nat, thread_count as nat, i as nat),
{
    let ghost total = total_size as nat;
    let ghost t = thread_count as nat;
    let seg_size: u64 = total_size / (thread_count as u64);
    let mut segs: Vec<Segment> = Vec::new();
    let mut i: usize = 0;
    let mut next_start: u64 = 0;
    while i < thread_count
        invariant
            i <= thread_count,
            1 <= thread_count <= MAX_THREADS,
            seg_size == base_len(total, t),
            total == total_size,
            t == thread_count,
            segs@.len() == i,
            i < thread_count ==> next_start == planned_start(total, t, i as nat),
            forall|j: int| 0 <= j < i ==> #[trigger] segs@[j] == planned_segment(total, t, j as nat),
        decreases thread_count - i,
    {
        proof { lemma_plan_bounds(total, t, i as nat); }
        let len: u64 = if i + 1 < thread_count {
            seg_size
        } else {
            total_size - next_start
        };
        assert(len == planned_len(total, t, i as nat)) by {
            if i + 1 == thread_count {
                assert(next_start == (t - 1) * base_len(total, t));
            }
        };
        segs.push(Segment { index: i, start: next_start, len });
        if i + 1 < thread_count {
            next_start = next_start + len;
        }
        i = i + 1;
    }
    segs
}

/// A plan's segments are contiguous and exactly cover `[0, total - 1]`: the
/// first starts at 0, each next one starts right after the previous one's
/// end, and the last one ends at `total - 1`.
pub proof fn lemma_plan_contiguous(total: nat, t: nat)
    requires
        1 <= t <= MAX_THREADS,
        total <= u64::MAX,
    ensures
        planned_segment(total, t, 0).start == 0,
        forall|i: nat| i + 1 < t ==> (#[trigger] planned_segment(total, t, i + 1)).start
            == planned_segment(total, t, i).end() + 1,
        planned_segment(total, t, (t - 1) as nat).end() == total - 1,
        forall|i: nat| i < t ==> planned_segment(total, t, i).start + planned_segment(total, t, i).len <= total,
{
    assert forall|i: nat| i + 1 < t implies (#[trigger] planned_segment(total, t, i + 1)).start
        == planned_segment(total, t, i).end() + 1 by {
        lemma_plan_bounds(total, t, i);
        lemma_plan_bounds(total, t, i + 1);
    }
    assert forall|i: nat| i < t implies planned_segment(total, t, i).start + planned_segment(total, t, i).len <= total by {
        lemma_plan_bounds(total, t, i);
    }
    lemma_plan_bounds(total, t, (t - 1) as nat);
    assert(0 * base_len(total, t) == 0);
}

/// Every byte offset in `[0, total)` lies in exactly one segment of a plan,
/// and no segment reaches past `total`.
pub proof fn lemma_plan_partition(total: nat, t: nat, x: nat)
    requires
        1 <= t <= MAX_THREADS,
        total <= u64::MAX,
    ensures
        x < total <==> exists|i: nat| i < t && #[trigger] planned_segment(total, t, i).start <= x
            <= planned_segment(total, t, i).end(),
        forall|i: nat, j: nat| #![trigger planned_segment(total, t, i), planned_segment(total, t, j)] i < j < t && planned_segment(total, t, i).start <= x
            <= planned_segment(total, t, i).end() ==> !(planned_segment(total, t, j).start <= x
            <= planned_segment(total, t, j).end()),
{
    lemma_plan_contiguous(total, t);
    let b = base_len(total, t);
    if x < total {
        let i: nat = if b == 0 { (t - 1) as nat } else if x / b < t - 1 { x / b } else { (t - 1) as nat };
        lemma_plan_bounds(total, t, i);
        if b > 0 {
            assert(x / b * b <= x) by (nonlinear_arith) requires b > 0;
            assert(x < (x / b + 1) * b) by (nonlinear_arith) requires b > 0;
            if x / b >= t - 1 {
                assert((t - 1) * b <= (x / b) * b) by (nonlinear_arith) requires x / b >= t - 1;
            }
        }
        assert(planned_segment(total, t, i).start <= x <= planned_segment(total, t, i).end());
    }
    assert forall|i: nat, j: nat| #![trigger planned_segment(total, t, i), planned_segment(total, t, j)] i < j < t && planned_segment(total, t, i).start <= x
        <= planned_segment(total, t, i).end() implies !(planned_segment(total, t, j).start <= x
        <= planned_segment(total, t, j).end()) by {
        lemma_plan_bounds(total, t, i);
        lemma_plan_bounds(total, t, j);
        assert(i * b + b <= j * b) by (nonlinear_arith) requires i < j;
    }
    assert forall|i: nat| i < t && #[trigger] planned_segment(total, t, i).start <= x
        <= planned_segment(total, t, i).end() implies x < total by {
        lemma_plan_bounds(total, t, i);
    }
}

proof fn lemma_sum_prefix(total: nat, t: nat, segs: Seq<Segment>, k: nat)
    requires
        1 <= t <= MAX_THREADS,
        total <= u64::MAX,
        segs.len() == t,
        k <= t,
        forall|i: int| 0 <= i < t ==> #[trigger] segs[i] == planned_segment(total, t, i as nat),
    ensures
        sum_lens(segs, k) == if k == 0 { 0 } else {
            planned_start(total, t, (k - 1) as nat) + planned_len(total, t, (k - 1) as nat)
        },
    decreases k,
{
    if k > 0 {
        lemma_sum_prefix(total, t, segs, (k - 1) as nat);
        lemma_plan_bounds(total, t, (k - 1) as nat);
        if k >= 2 {
            lemma_plan_bounds(total, t, (k - 2) as nat);
        }
        assert(0 * base_len(total, t) == 0);
    }
}

/// The lengths of a plan's segments add up to the total size.
pub proof fn lemma_plan_sum(total: nat, t: nat, segs: Seq<Segment>)
    requires
        1 <= t <= MAX_THREADS,
        total <= u64::MAX,
        segs.len() == t,
        forall|i: int| 0 <= i < t ==> #[trigger] segs[i] == planned_segment(total, t, i as nat),
    ensures
        sum_lens(segs, t) == total,
{
    lemma_sum_prefix(total, t, segs, t);
    lemma_plan_bounds(total, t, (t - 1) as nat);
}

} // verus!
