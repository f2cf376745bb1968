//! Rolling throughput estimator.
//!
//! A fixed-capacity ring buffer turns observed (time, work-delta) samples
//! into a smoothed rate: nanoseconds spent per unit of work. Only the last
//! sixteen samples count, so the estimate follows recent throughput instead
//! of an all-time average. A zero-delta observation is a strict no-op: it is
//! never recorded and never moves the reference timestamp, so idle polling
//! cannot dilute the estimate.

use vstd::arithmetic::div_mod::{lemma_div_is_ordered, lemma_div_multiples_vanish};
use vstd::prelude::*;

verus! {

/// The sum of a sequence of recorded rates.
pub open spec fn sum_of(s: Seq<u64>) -> int
    decreases s.len(),
{
    if s.len() == 0 {
        0
    } else {
        sum_of(s.drop_last()) + s.last()
    }
}

/// The sum of `n` rates lies between 0 and `n` times the largest rate value.
pub proof fn lemma_sum_bounds(s: Seq<u64>)
    ensures
        0 <= sum_of(s) <= s.len() * u64::MAX,
    decreases s.len(),
{
    if s.len() > 0 {
        lemma_sum_bounds(s.drop_last());
    }
}

/// Extending a prefix by one element adds that element to the prefix sum.
pub proof fn lemma_sum_take_step(s: Seq<u64>, i: int)
    requires
        0 <= i < s.len(),
    ensures
        sum_of(s.take(i + 1)) == sum_of(s.take(i)) + s[i],
{
    assert(s.take(i + 1).drop_last() =~= s.take(i));
    assert(s.take(i + 1).last() == s[i]);
}

/// The arithmetic mean of a sequence of recorded rates, zero when no sample
/// exists.
pub open spec fn mean_of(s: Seq<u64>) -> int {
    if s.len() == 0 {
        0
    } else {
        sum_of(s) / s.len() as int
    }
}

/// The rate one sample denotes: elapsed nanoseconds per unit of work, where
/// a timestamp earlier than the reference one counts as zero elapsed time.
pub open spec fn rate_nanos(prev: u64, now: u64, delta: u64) -> u64
    recommends
        delta > 0,
{
    (((if now >= prev {
        now - prev
    } else {
        0
    }) as int) / delta as int) as u64
}

/// A zero-delta observation is a strict no-op: an estimator that records
/// one is left exactly as it was, whenever it happens. The smoothed
/// estimate over any sequence of observations is therefore independent of
/// interleaved zero-delta calls.
pub proof fn lemma_zero_delta_is_noop(pre: Estimator, now: u64, post: Estimator)
    requires
        records_to(pre, 0, now, post),
    ensures
        post == pre,
{
}

/// The sum of a constant sequence is the constant times the length.
proof fn lemma_sum_of_constant(s: Seq<u64>, c: u64)
    requires
        forall|i: int| 0 <= i < s.len() ==> s[i] == c,
    ensures
        sum_of(s) == s.len() * c,
    decreases s.len(),
{
    if s.len() > 0 {
        lemma_sum_of_constant(s.drop_last(), c);
        assert(s.len() * c == (s.len() - 1) * c + c) by (nonlinear_arith);
    }
}

/// A sustained constant throughput is estimated exactly: when every rate in
/// the window equals `c`, the mean is `c`, however often the ring has
/// wrapped.
pub proof fn lemma_mean_of_constant(s: Seq<u64>, c: u64)
    requires
        s.len() > 0,
        forall|i: int| 0 <= i < s.len() ==> s[i] == c,
    ensures
        mean_of(s) == c,
{
    lemma_sum_of_constant(s, c);
    lemma_div_multiples_vanish(c as int, s.len() as int);
    assert(s.len() * c == s.len() as int * (c as int)) by (nonlinear_arith);
}

/// How one recorded observation takes an estimator from `pre` to `post`:
/// nothing at all on a zero delta, else the sample's rate enters the ring
/// and `now` becomes the reference timestamp.
pub open spec fn records_to(pre: Estimator, delta: u64, now: u64, post: Estimator) -> bool {
    if delta == 0 {
        post == pre
    } else {
        let rate = rate_nanos(pre.prev_time(), now, delta);
        &&& post.prev_time() == now
        &&& post.rates() == (if pre.is_full() {
            pre.rates().update(pre.slot(), rate)
        } else {
            pre.rates().push(rate)
        })
        &&& post.slot() == (pre.slot() + 1) % 16
        &&& post.is_full() == (pre.is_full() || pre.slot() == 15)
    }
}

/// Rolling estimate of nanoseconds per unit of work over the last sixteen
/// recorded samples.
#[derive(Debug)]
pub struct Estimator {
    steps: Vec<u64>,
    pos: u8,
    full: bool,
    prev: u64,
}

impl Estimator {
    /// The ring holds exactly sixteen slots and the write index stays in range.
    pub closed spec fn wf(self) -> bool {
        self.steps@.len() == 16 && self.pos < 16
    }

    /// The next slot a sample will be written to.
    pub closed spec fn slot(self) -> int {
        self.pos as int
    }

    /// Whether the ring has wrapped at least once.
    pub closed spec fn is_full(self) -> bool {
        self.full
    }

    /// Timestamp of the most recently recorded sample.
    pub closed spec fn prev_time(self) -> u64 {
        self.prev
    }

    /// The rates currently counted by the estimate: all sixteen slots once
    /// the ring has wrapped, else the slots written so far.
    pub closed spec fn rates(self) -> Seq<u64> {
        if self.full {
            self.steps@
        } else {
            self.steps@.take(self.pos as int)
        }
    }

    pub fn new(now: u64) -> (e: Estimator)
        ensures
            e.wf(),
            e.rates() == Seq::<u64>::empty(),
            e.prev_time() == now,
            !e.is_full(),
            e.slot() == 0,
    {
        let mut steps: Vec<u64> = Vec::new();
        let mut i: usize = 0;
        while i < 16
            invariant
                steps@.len() == i,
                i <= 16,
            decreases 16 - i,
        {
            steps.push(0);
            i = i + 1;
        }
        let e = Estimator { steps, pos: 0, full: false, prev: now };
        proof {
            assert(e.rates() =~= Seq::<u64>::empty());
        }
        e
    }

    /// Record one observation. With `delta == 0` nothing changes at all;
    /// otherwise the elapsed time per unit since the previous sample is
    /// written into the next ring slot and `now` becomes the new reference
    /// timestamp.
    pub fn record(&mut self, delta: u64, now: u64)
        requires
            old(self).wf(),
        ensures
            final(self).wf(),
            records_to(*old(self), delta, now, *final(self)),
            delta == 0 ==> *final(self) == *old(self),
    {
        if delta == 0 {
            return ;
        }
        let elapsed: u64 = if now >= self.prev {
            now - self.prev
        } else {
            0
        };
        let rate: u64 = elapsed / delta;
        let ghost before = *self;
        self.steps.set(self.pos as usize, rate);
        self.pos = (self.pos + 1) % 16;
        if !self.full && self.pos == 0 {
            self.full = true;
        }
        self.prev = now;
        proof {
            if before.full {
                assert(self.rates() =~= before.rates().update(before.slot(), rate));
            } else if before.pos == 15 {
                assert(self.rates() =~= before.rates().push(rate));
            } else {
                assert(self.rates() =~= before.rates().push(rate));
            }
        }
    }

    /// Discard all recorded history and restart from `now`. The reference
    /// timestamp moves; nothing else of the owning state is touched.
    pub fn reset(&mut self, now: u64)
        requires
            old(self).wf(),
        ensures
            final(self).wf(),
            final(self).rates() == Seq::<u64>::empty(),
            final(self).prev_time() == now,
            !final(self).is_full(),
            final(self).slot() == 0,
    {
        self.pos = 0;
        self.full = false;
        self.prev = now;
        proof {
            assert(self.rates() =~= Seq::<u64>::empty());
        }
    }

    /// The smoothed estimate: the arithmetic mean of the recorded rates,
    /// or `None` while no sample exists yet ("rate unknown").
    pub fn nanos_per_step(&self) -> (r: Option<u64>)
        requires
            self.wf(),
        ensures
            match r {
                Option::None => self.rates().len() == 0,
                Option::Some(v) => self.rates().len() > 0 && v as int == mean_of(self.rates()),
            },
    {
        let n: usize = if self.full {
            16
        } else {
            self.pos as usize
        };
        if n == 0 {
            return Option::None;
        }
        let ghost r = self.rates();
        proof {
            assert(r.take(0) =~= Seq::<u64>::empty());
        }
        let mut acc: u128 = 0;
        let mut i: usize = 0;
        while i < n
            invariant
                self.wf(),
                n == r.len(),
                n <= 16,
                r == self.rates(),
                i <= n,
                acc == sum_of(r.take(i as int)),
                acc <= i * (u64::MAX as int),
            decreases n - i,
        {
            proof {
                lemma_sum_take_step(r, i as int);
                assert(r[i as int] == self.steps@[i as int]);
            }
            acc = acc + self.steps[i] as u128;
            i = i + 1;
        }
        proof {
            assert(r.take(n as int) =~= r);
            lemma_sum_bounds(r);
            lemma_div_is_ordered(acc as int, n as int * u64::MAX, n as int);
            lemma_div_multiples_vanish(u64::MAX as int, n as int);
        }
        let mean: u128 = acc / (n as u128);
        Option::Some(mean as u64)
    }
}

} // verus!
