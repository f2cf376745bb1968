//! The state of a progress bar at a moment in time, and its derived queries.
//!
//! All queries are exact integer computations at nanosecond precision: a
//! completion ratio is a pair of integers, a span of time is a count of
//! nanoseconds, and a throughput is a whole number of steps per second.

use crate::estimator::{mean_of, Estimator};
use vstd::prelude::*;

verus! {

/// Sentinel length meaning "length unknown / unbounded".
pub const UNBOUNDED: u64 = u64::MAX;

/// Completion status of a bar. Both `Done` states are terminal: nothing
/// leaves them except a full reset.
#[derive(Clone, Copy, Debug, PartialEq, Eq, Structural)]
pub enum Status {
    /// The bar is still running.
    InProgress,
    /// The bar is finished and still rendered.
    DoneVisible,
    /// The bar is finished and rendered as cleared.
    DoneHidden,
}

/// An exact completion ratio `num / den`, always between zero and one.
#[derive(Clone, Copy, Debug, PartialEq, Eq, Structural)]
pub struct Fraction {
    pub num: u64,
    pub den: u64,
}

/// The state of a progress bar at a moment in time.
#[non_exhaustive]
pub struct ProgressState {
    pub(crate) pos: u64,
    pub(crate) len: u64,
    pub(crate) tick: u64,
    pub(crate) started: u64,
    pub(crate) status: Status,
    pub(crate) est: Estimator,
}

impl ProgressState {
    /// Units of work completed so far.
    pub closed spec fn spec_pos(self) -> u64 {
        self.pos
    }

    /// Total units of work, or [`UNBOUNDED`].
    pub closed spec fn spec_len(self) -> u64 {
        self.len
    }

    /// Animation frame counter.
    pub closed spec fn spec_tick(self) -> u64 {
        self.tick
    }

    /// Timestamp at which the current run started.
    pub closed spec fn spec_started(self) -> u64 {
        self.started
    }

    /// Completion status.
    pub closed spec fn spec_status(self) -> Status {
        self.status
    }

    /// The owned throughput estimator.
    pub closed spec fn spec_est(self) -> Estimator {
        self.est
    }

    /// A state is well formed when its estimator is.
    pub open spec fn wf(self) -> bool {
        self.spec_est().wf()
    }

    /// Whether the bar has reached a terminal status.
    pub open spec fn spec_is_finished(self) -> bool {
        self.spec_status() != Status::InProgress
    }

    /// Units of work still outstanding, zero once `pos` has overshot `len`.
    pub open spec fn spec_remaining(self) -> u64 {
        if self.spec_pos() >= self.spec_len() {
            0
        } else {
            (self.spec_len() - self.spec_pos()) as u64
        }
    }

    /// Nanoseconds elapsed since the run started, zero for a timestamp
    /// earlier than the start.
    pub open spec fn spec_elapsed(self, now: u64) -> u64 {
        if now >= self.spec_started() {
            (now - self.spec_started()) as u64
        } else {
            0
        }
    }

    /// Whether the time-to-completion queries are defined at all: they are
    /// zero once the length is unbounded or the bar is finished.
    pub open spec fn spec_eta_applies(self) -> bool {
        self.spec_len() != UNBOUNDED && !self.spec_is_finished()
    }

    /// The expected remaining time in nanoseconds: the mean rate times the
    /// outstanding work, saturating at the largest representable count. An
    /// empty estimator means an unknown rate, treated as zero.
    pub open spec fn spec_eta(self) -> u64 {
        if !self.spec_eta_applies() {
            0
        } else if mean_of(self.spec_est().rates()) * self.spec_remaining() > u64::MAX {
            u64::MAX
        } else {
            (mean_of(self.spec_est().rates()) * self.spec_remaining()) as u64
        }
    }

    /// A fresh state: nothing done, in progress, started at `now`, with an
    /// empty estimator.
    pub fn new(len: u64, now: u64) -> (s: ProgressState)
        ensures
            s.wf(),
            s.spec_pos() == 0,
            s.spec_len() == len,
            s.spec_tick() == 0,
            s.spec_started() == now,
            s.spec_status() == Status::InProgress,
            s.spec_est().rates() == Seq::<u64>::empty(),
            s.spec_est().prev_time() == now,
            !s.spec_est().is_full(),
            s.spec_est().slot() == 0,
    {
        ProgressState {
            pos: 0,
            len,
            tick: 0,
            started: now,
            status: Status::InProgress,
            est: Estimator::new(now),
        }
    }

    /// Indicates that the progress bar finished.
    pub fn is_finished(&self) -> (r: bool)
        ensures
            r == self.spec_is_finished(),
    {
        match self.status {
            Status::InProgress => false,
            Status::DoneVisible => true,
            Status::DoneHidden => true,
        }
    }

    /// Returns the completion as an exact ratio between 0 and 1. A zero
    /// length counts as trivially complete; a position beyond the length is
    /// clamped to one.
    pub fn fraction(&self) -> (r: Fraction)
        ensures
            r.den >= 1,
            r.num <= r.den,
            self.spec_len() == 0 ==> r == (Fraction { num: 1, den: 1 }),
            self.spec_len() > 0 ==> r.den == self.spec_len() && r.num == (if self.spec_pos()
                <= self.spec_len() {
                self.spec_pos()
            } else {
                self.spec_len()
            }),
    {
        if self.len == 0 {
            Fraction { num: 1, den: 1 }
        } else if self.pos <= self.len {
            Fraction { num: self.pos, den: self.len }
        } else {
            Fraction { num: self.len, den: self.len }
        }
    }

    /// The expected time to completion, in nanoseconds. Exactly zero when
    /// the length is unbounded or the bar is finished.
    pub fn eta(&self) -> (r: u64)
        requires
            self.wf(),
        ensures
            r == self.spec_eta(),
            !self.spec_eta_applies() ==> r == 0,
    {
        if self.len == UNBOUNDED || self.is_finished() {
            return 0;
        }
        let remaining: u64 = if self.pos >= self.len {
            0
        } else {
            self.len - self.pos
        };
        match self.est.nanos_per_step() {
            Option::None => 0,
            Option::Some(rate) => {
                proof {
                    vstd::arithmetic::mul::lemma_mul_upper_bound(
                        rate as int,
                        u64::MAX as int,
                        remaining as int,
                        u64::MAX as int,
                    );
                }
                let product: u128 = rate as u128 * remaining as u128;
                if product > u64::MAX as u128 {
                    u64::MAX
                } else {
                    product as u64
                }
            },
        }
    }

    /// The expected total duration in nanoseconds: elapsed time plus the
    /// expected time to completion, saturating. Exactly zero when the length
    /// is unbounded or the bar is finished.
    pub fn duration(&self, now: u64) -> (r: u64)
        requires
            self.wf(),
        ensures
            self.spec_eta_applies() ==> r == (if self.spec_elapsed(now) + self.spec_eta()
                > u64::MAX {
                u64::MAX
            } else {
                (self.spec_elapsed(now) + self.spec_eta()) as u64
            }),
            !self.spec_eta_applies() ==> r == 0,
    {
        if self.len == UNBOUNDED || self.is_finished() {
            return 0;
        }
        self.elapsed(now).saturating_add(self.eta())
    }

    /// The throughput in whole steps per second. While in progress this is
    /// the inverse of the rolling mean rate: zero while no sample exists,
    /// saturated when the mean rate is zero. Once finished it is the true
    /// average over the whole run, zero when no time has elapsed.
    pub fn per_sec(&self, now: u64) -> (r: u64)
        requires
            self.wf(),
        ensures
            !self.spec_is_finished() ==> r as int == (if self.spec_est().rates().len() == 0 {
                0
            } else if mean_of(self.spec_est().rates()) == 0 {
                u64::MAX as int
            } else {
                1_000_000_000 as int / mean_of(self.spec_est().rates())
            }),
            self.spec_is_finished() ==> r as int == (if self.spec_elapsed(now) == 0 {
                0
            } else if self.spec_len() * 1_000_000_000 / self.spec_elapsed(now) as int
                > u64::MAX {
                u64::MAX as int
            } else {
                self.spec_len() * 1_000_000_000 / self.spec_elapsed(now) as int
            }),
    {
        if !self.is_finished() {
            match self.est.nanos_per_step() {
                Option::None => 0,
                Option::Some(rate) => {
                    if rate == 0 {
                        u64::MAX
                    } else {
                        1_000_000_000u64 / rate
                    }
                },
            }
        } else {
            let elapsed: u64 = self.elapsed(now);
            if elapsed == 0 {
                0
            } else {
                let per: u128 = self.len as u128 * 1_000_000_000u128 / elapsed as u128;
                if per > u64::MAX as u128 {
                    u64::MAX
                } else {
                    per as u64
                }
            }
        }
    }

    /// Nanoseconds elapsed since the current run started.
    pub fn elapsed(&self, now: u64) -> (r: u64)
        ensures
            r == self.spec_elapsed(now),
    {
        now.saturating_sub(self.started)
    }

    /// The completion status itself.
    pub fn status(&self) -> (s: Status)
        ensures
            s == self.spec_status(),
    {
        self.status
    }

    /// The animation frame counter.
    pub fn tick_count(&self) -> (t: u64)
        ensures
            t == self.spec_tick(),
    {
        self.tick
    }

    pub(crate) fn set_tick(&mut self, t: u64)
        ensures
            final(self).spec_tick() == t,
            final(self).spec_pos() == old(self).spec_pos(),
            final(self).spec_len() == old(self).spec_len(),
            final(self).spec_started() == old(self).spec_started(),
            final(self).spec_status() == old(self).spec_status(),
            final(self).spec_est() == old(self).spec_est(),
    {
        self.tick = t;
    }

    pub(crate) fn set_status(&mut self, s: Status)
        ensures
            final(self).spec_status() == s,
            final(self).spec_pos() == old(self).spec_pos(),
            final(self).spec_len() == old(self).spec_len(),
            final(self).spec_tick() == old(self).spec_tick(),
            final(self).spec_started() == old(self).spec_started(),
            final(self).spec_est() == old(self).spec_est(),
    {
        self.status = s;
    }

    pub(crate) fn set_started(&mut self, now: u64)
        ensures
            final(self).spec_started() == now,
            final(self).spec_pos() == old(self).spec_pos(),
            final(self).spec_len() == old(self).spec_len(),
            final(self).spec_tick() == old(self).spec_tick(),
            final(self).spec_status() == old(self).spec_status(),
            final(self).spec_est() == old(self).spec_est(),
    {
        self.started = now;
    }

    /// Feed one observation to the owned estimator.
    pub(crate) fn record(&mut self, delta: u64, now: u64)
        requires
            old(self).wf(),
        ensures
            final(self).wf(),
            crate::estimator::records_to(
                old(self).spec_est(),
                delta,
                now,
                final(self).spec_est(),
            ),
            final(self).spec_pos() == old(self).spec_pos(),
            final(self).spec_len() == old(self).spec_len(),
            final(self).spec_tick() == old(self).spec_tick(),
            final(self).spec_started() == old(self).spec_started(),
            final(self).spec_status() == old(self).spec_status(),
    {
        self.est.record(delta, now);
    }

    /// Discard the owned estimator's history.
    pub(crate) fn reset_est(&mut self, now: u64)
        requires
            old(self).wf(),
        ensures
            final(self).wf(),
            final(self).spec_est().rates() == Seq::<u64>::empty(),
            final(self).spec_est().prev_time() == now,
            !final(self).spec_est().is_full(),
            final(self).spec_est().slot() == 0,
            final(self).spec_pos() == old(self).spec_pos(),
            final(self).spec_len() == old(self).spec_len(),
            final(self).spec_tick() == old(self).spec_tick(),
            final(self).spec_started() == old(self).spec_started(),
            final(self).spec_status() == old(self).spec_status(),
    {
        self.est.reset(now);
    }

    pub fn pos(&self) -> (r: u64)
        ensures
            r == self.spec_pos(),
    {
        self.pos
    }

    pub fn set_pos(&mut self, pos: u64)
        ensures
            final(self).spec_pos() == pos,
            final(self).spec_len() == old(self).spec_len(),
            final(self).spec_tick() == old(self).spec_tick(),
            final(self).spec_started() == old(self).spec_started(),
            final(self).spec_status() == old(self).spec_status(),
            final(self).spec_est() == old(self).spec_est(),
    {
        self.pos = pos;
    }

    #[allow(clippy::len_without_is_empty)]
    pub fn len(&self) -> (r: u64)
        ensures
            r == self.spec_len(),
    {
        self.len
    }

    pub fn set_len(&mut self, len: u64)
        ensures
            final(self).spec_pos() == old(self).spec_pos(),
            final(self).spec_len() == len,
            final(self).spec_tick() == old(self).spec_tick(),
            final(self).spec_started() == old(self).spec_started(),
            final(self).spec_status() == old(self).spec_status(),
            final(self).spec_est() == old(self).spec_est(),
    {
        self.len = len;
    }
}

} // verus!
