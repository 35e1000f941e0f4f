//! Online latency aggregator: count, min, max and an incrementally maintained
//! truncating-integer running average, updated once per completed attempt.

use vstd::prelude::*;
use vstd::arithmetic::div_mod::{
    lemma_div_is_ordered, lemma_div_multiples_vanish, lemma_fundamental_div_mod, lemma_mod_bound,
};
use vstd::arithmetic::mul::{lemma_mul_inequality, lemma_mul_is_commutative};

verus! {

/// Value held in `min` before any sample has been recorded. A snapshot
/// reports it to the user as 0 instead.
pub const MIN_SENTINEL: u32 = 999_999_999;

/// Sum of all samples in the sequence.
pub open spec fn sum_of(s: Seq<u32>) -> int
    decreases s.len(),
{
    if s.len() == 0 {
        0
    } else {
        sum_of(s.drop_last()) + s.last()
    }
}

/// Least sample of a non-empty sequence.
pub open spec fn seq_min(s: Seq<u32>) -> u32
    decreases s.len(),
{
    if s.len() <= 1 {
        s[0]
    } else {
        let m = seq_min(s.drop_last());
        if s.last() < m {
            s.last()
        } else {
            m
        }
    }
}

/// Greatest sample of a non-empty sequence.
pub open spec fn seq_max(s: Seq<u32>) -> u32
    decreases s.len(),
{
    if s.len() <= 1 {
        s[0]
    } else {
        let m = seq_max(s.drop_last());
        if s.last() > m {
            s.last()
        } else {
            m
        }
    }
}

/// The value the incremental formula `(avg * n + x) / (n + 1)` (truncating
/// integer division) produces after folding over the whole sequence.
pub open spec fn running_avg(s: Seq<u32>) -> int
    decreases s.len(),
{
    if s.len() == 0 {
        0
    } else {
        (running_avg(s.drop_last()) * (s.len() - 1) + s.last()) / (s.len() as int)
    }
}

/// One incremental-average step stays within any band `[lo, hi]` that covers
/// both the previous average and the new sample.
proof fn lemma_avg_step_bounds(a: int, n: int, c: int, lo: int, hi: int)
    requires
        0 <= lo,
        lo <= a <= hi,
        lo <= n <= hi,
        0 <= c,
    ensures
        lo <= (a * c + n) / (c + 1) <= hi,
{
    lemma_mul_inequality(a, hi, c);
    lemma_mul_inequality(lo, a, c);
    assert(hi * c + hi == (c + 1) * hi) by (nonlinear_arith);
    assert(lo * c + lo == (c + 1) * lo) by (nonlinear_arith);
    lemma_div_is_ordered(a * c + n, (c + 1) * hi, c + 1);
    lemma_div_is_ordered((c + 1) * lo, a * c + n, c + 1);
    lemma_div_multiples_vanish(hi, c + 1);
    lemma_div_multiples_vanish(lo, c + 1);
}

/// Running summary of observed latencies, in milliseconds. Its abstract state
/// is the sequence of all recorded samples; every field is a function of it.
pub struct ResponseTime {
    average: u32,
    count: u32,
    min: u32,
    max: u32,
    samples: Ghost<Seq<u32>>,
}

impl View for ResponseTime {
    type V = Seq<u32>;

    closed spec fn view(&self) -> Seq<u32> {
        self.samples@
    }
}

impl ResponseTime {
    /// The fields agree with the recorded sample sequence.
    pub closed spec fn wf(&self) -> bool {
        &&& self.count == self@.len()
        &&& self.average == running_avg(self@)
        &&& (self@.len() == 0 ==> self.min == MIN_SENTINEL && self.max == 0)
        &&& (self@.len() > 0 ==> self.min == seq_min(self@) && self.max == seq_max(self@))
    }

    pub fn new() -> (r: Self)
        ensures
            r.wf(),
            r@ == Seq::<u32>::empty(),
    {
        ResponseTime {
            average: 0,
            count: 0,
            min: MIN_SENTINEL,
            max: 0,
            samples: Ghost(Seq::empty()),
        }
    }

    pub fn get_average(&self) -> (r: u32)
        requires
            self.wf(),
        ensures
            r == running_avg(self@),
    {
        self.average
    }

    pub fn get_count(&self) -> (r: u32)
        requires
            self.wf(),
        ensures
            r == self@.len(),
    {
        self.count
    }

    pub fn get_min(&self) -> (r: u32)
        requires
            self.wf(),
        ensures
            self@.len() == 0 ==> r == MIN_SENTINEL,
            self@.len() > 0 ==> r == seq_min(self@),
    {
        self.min
    }

    /// Record one latency sample: fold it into the running average with the
    /// truncating incremental formula, then bump the count and refresh
    /// min/max. The whole update is one call; a caller that shares the
    /// aggregator across threads serialises calls with a lock around it.
    pub fn add(&mut self, new: u32)
        requires
            old(self).wf(),
            old(self)@.len() < u32::MAX,
        ensures
            final(self).wf(),
            final(self)@ == old(self)@.push(new),
    {
        let ghost s = self.samples@;
        proof {
            lemma_avg_step_bounds(
                self.average as int,
                new as int,
                self.count as int,
                0,
                u32::MAX as int,
            );
            assert(
                self.average as int * self.count as int
                    <= u32::MAX as int * u32::MAX as int
            ) by (nonlinear_arith)
                requires
                    0 <= self.average as int <= u32::MAX as int,
                    0 <= self.count as int <= u32::MAX as int,
            ;
        }
        let wide: u64 = (self.average as u64 * self.count as u64 + new as u64)
            / (self.count as u64 + 1);
        self.average = wide as u32;
        self.count = self.count + 1;
        self.samples = Ghost(s.push(new));
        self.min_check(new);
        self.max_check(new);
        proof {
            assert(s.push(new).drop_last() =~= s);
        }
    }

    /// Lower the stored minimum if the new sample is smaller; the first
    /// sample replaces the sentinel outright.
    fn min_check(&mut self, item: u32)
        ensures
            final(self).min == (if old(self).count == 1 {
                item
            } else if item < old(self).min {
                item
            } else {
                old(self).min
            }),
            final(self).average == old(self).average,
            final(self).count == old(self).count,
            final(self).max == old(self).max,
            final(self).samples == old(self).samples,
    {
        if self.count == 1 {
            self.min = item;
        } else if item < self.min {
            self.min = item;
        }
    }

    /// Raise the stored maximum if the new sample is larger.
    fn max_check(&mut self, item: u32)
        ensures
            final(self).max == (if item > old(self).max {
                item
            } else {
                old(self).max
            }),
            final(self).average == old(self).average,
            final(self).count == old(self).count,
            final(self).min == old(self).min,
            final(self).samples == old(self).samples,
    {
        if item > self.max {
            self.max = item;
        }
    }

    pub fn get_max(&self) -> (r: u32)
        requires
            self.wf(),
        ensures
            self@.len() == 0 ==> r == 0,
            self@.len() > 0 ==> r == seq_max(self@),
    {
        self.max
    }

    /// Consistent point-in-time copy of the aggregate fields, in the form the
    /// user sees: before any sample, min is reported as 0, not the sentinel.
    pub fn snapshot(&self) -> (r: Snapshot)
        requires
            self.wf(),
        ensures
            is_snapshot_of(r, self@),
    {
        Snapshot {
            count: self.count,
            min: if self.count == 0 { 0 } else { self.min },
            max: self.max,
            average: self.average,
        }
    }
}

/// The aggregate fields as reported to the user at shutdown.
#[derive(Clone, Copy, Debug, PartialEq, Eq, Structural)]
pub struct Snapshot {
    pub count: u32,
    pub min: u32,
    pub max: u32,
    pub average: u32,
}

/// What a snapshot of an aggregator whose recorded samples are `s` holds.
pub open spec fn is_snapshot_of(r: Snapshot, s: Seq<u32>) -> bool {
    &&& r.count == s.len()
    &&& r.average == running_avg(s)
    &&& (s.len() == 0 ==> r.min == 0 && r.max == 0)
    &&& (s.len() > 0 ==> r.min == seq_min(s) && r.max == seq_max(s))
}

/// Law: a snapshot is a function of the recorded samples alone, so two
/// snapshots taken with no intervening `add` call are identical.
pub proof fn lemma_snapshot_idempotent(s: Seq<u32>, a: Snapshot, b: Snapshot)
    requires
        is_snapshot_of(a, s),
        is_snapshot_of(b, s),
    ensures
        a == b,
{
}

/// Law: `seq_min` and `seq_max` are the true minimum and maximum: each bounds
/// every sample and each is itself a sample. Both are therefore independent
/// of the order in which the samples arrived.
pub proof fn lemma_min_max_characterize(s: Seq<u32>)
    requires
        s.len() > 0,
    ensures
        forall|i: int| 0 <= i < s.len() ==> seq_min(s) <= #[trigger] s[i],
        forall|i: int| 0 <= i < s.len() ==> #[trigger] s[i] <= seq_max(s),
        exists|i: int| 0 <= i < s.len() && s[i] == seq_min(s),
        exists|j: int| 0 <= j < s.len() && s[j] == seq_max(s),
    decreases s.len(),
{
    if s.len() == 1 {
        assert(s[0] == seq_min(s));
        assert(s[0] == seq_max(s));
    } else {
        let t = s.drop_last();
        lemma_min_max_characterize(t);
        assert forall|i: int| 0 <= i < s.len() implies seq_min(s) <= #[trigger] s[i] by {
            if i < s.len() - 1 {
                assert(t[i] == s[i]);
            }
        }
        assert forall|i: int| 0 <= i < s.len() implies #[trigger] s[i] <= seq_max(s) by {
            if i < s.len() - 1 {
                assert(t[i] == s[i]);
            }
        }
        let wmin = choose|i: int| 0 <= i < t.len() && t[i] == seq_min(t);
        if s.last() < seq_min(t) {
            assert(s[s.len() - 1] == seq_min(s));
        } else {
            assert(s[wmin] == seq_min(s));
        }
        let wmax = choose|j: int| 0 <= j < t.len() && t[j] == seq_max(t);
        if s.last() > seq_max(t) {
            assert(s[s.len() - 1] == seq_max(s));
        } else {
            assert(s[wmax] == seq_max(s));
        }
    }
}

/// Law: once at least one sample is recorded, the running average lies
/// between the true minimum and the true maximum.
pub proof fn lemma_running_avg_bounds(s: Seq<u32>)
    requires
        s.len() > 0,
    ensures
        seq_min(s) <= running_avg(s) <= seq_max(s),
    decreases s.len(),
{
    if s.len() == 1 {
        assert(running_avg(s) == (running_avg(s.drop_last()) * 0 + s.last()) / 1int);
    } else {
        let t = s.drop_last();
        lemma_running_avg_bounds(t);
        lemma_avg_step_bounds(
            running_avg(t),
            s.last() as int,
            t.len() as int,
            seq_min(s) as int,
            seq_max(s) as int,
        );
    }
}

/// Law: the incremental average never exceeds the truncated true average.
/// Each step's truncation can only lose ground, so after any number of adds,
/// `running_avg(s) * len <= sum_of(s)`, hence `running_avg(s) <= sum_of(s) / len`.
pub proof fn lemma_running_avg_le_true_avg(s: Seq<u32>)
    requires
        s.len() > 0,
    ensures
        running_avg(s) * s.len() <= sum_of(s),
        running_avg(s) <= sum_of(s) / (s.len() as int),
    decreases s.len(),
{
    let n = s.len() as int;
    let t = s.drop_last();
    let a = running_avg(t);
    let q = running_avg(s);
    let num = a * (n - 1) + s.last();
    lemma_fundamental_div_mod(num, n);
    lemma_mod_bound(num, n);
    lemma_mul_is_commutative(q, n);
    if s.len() > 1 {
        lemma_running_avg_le_true_avg(t);
        lemma_mul_is_commutative(a, n - 1);
    }
    assert(q * n <= sum_of(s));
    lemma_div_is_ordered(n * q, sum_of(s), n);
    lemma_div_multiples_vanish(q, n);
}

/// Law: for one or two samples the incremental average is exactly the
/// truncated true average, `sum_of(s) / len`.
pub proof fn lemma_running_avg_exact_up_to_two(s: Seq<u32>)
    requires
        1 <= s.len() <= 2,
    ensures
        running_avg(s) == sum_of(s) / (s.len() as int),
{
    if s.len() == 1 {
        assert(running_avg(s) == (running_avg(s.drop_last()) * 0 + s.last()) / 1int);
        assert(sum_of(s) == sum_of(s.drop_last()) + s.last());
        assert(sum_of(s.drop_last()) == 0);
    } else {
        let t = s.drop_last();
        assert(running_avg(t) == (running_avg(t.drop_last()) * 0 + t.last()) / 1int);
        assert(t.last() == s[0]);
        assert(running_avg(s) == (s[0] * 1 + s.last()) / 2int);
        assert(sum_of(t) == sum_of(t.drop_last()) + t.last());
        assert(sum_of(t.drop_last()) == 0);
        assert(sum_of(s) == s[0] + s.last());
    }
}

/// Law: if every sample equals `v`, the running average is exactly `v`,
/// whatever the number of samples; the sum is then `v * len`.
pub proof fn lemma_running_avg_all_equal(s: Seq<u32>, v: u32)
    requires
        s.len() > 0,
        forall|i: int| 0 <= i < s.len() ==> #[trigger] s[i] == v,
    ensures
        running_avg(s) == v,
        sum_of(s) == v * s.len(),
    decreases s.len(),
{
    let n = s.len() as int;
    assert(s.last() == s[n - 1]);
    if s.len() == 1 {
        assert(running_avg(s) == (running_avg(s.drop_last()) * 0 + s.last()) / 1int);
        assert(sum_of(s) == sum_of(s.drop_last()) + s.last());
    } else {
        let t = s.drop_last();
        assert(forall|i: int| 0 <= i < t.len() ==> #[trigger] t[i] == s[i]);
        lemma_running_avg_all_equal(t, v);
        assert(v as int * (n - 1) + v == n * (v as int)) by (nonlinear_arith);
        lemma_div_multiples_vanish(v as int, n);
        assert(sum_of(s) == v * (n - 1) + v);
        assert(v as int * (n - 1) + v == v as int * n) by (nonlinear_arith);
    }
}

} // verus!
