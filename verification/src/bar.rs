//! The orchestrator behind a progress bar.
//!
//! `BarState` owns the progress data, the finish policy, the style and the
//! drawing surface, and exposes every mutation entry point. Each mutation
//! applies its change, feeds any position delta to the estimator with the
//! call's timestamp, and then asks for a conditional redraw. The ticker
//! entry points hold the decisions of the background animation driver; the
//! thread that sleeps between wakes lives outside the engine and only calls
//! them.

use crate::draw_target::DrawTarget;
use crate::estimator::records_to;
use crate::state::{ProgressState, Status};
use crate::style::{spec_line, spec_split_lines, split_lines, Style};
use crate::time::sat_sub;
use vstd::prelude::*;
use vstd::string::StrSliceExecFns;

verus! {

/// Which parts of a bar a reset reinitializes.
#[derive(Clone, Copy, Debug, PartialEq, Eq, Structural)]
pub enum Reset {
    /// Only the throughput estimator.
    Eta,
    /// Only the start time.
    Elapsed,
    /// Estimator, start time, position and status.
    All,
}

/// Behavior of a progress bar when it is finished: the terminal visual
/// state applied either explicitly or automatically when the last owning
/// handle is released while the bar is still in progress.
#[derive(Debug)]
pub enum ProgressFinish {
    /// Finishes the progress bar and leaves the current message.
    AndLeave,
    /// Finishes the progress bar and sets a message.
    WithMessage(String),
    /// Finishes the progress bar and completely clears it (the default).
    AndClear,
    /// Finishes the progress bar and leaves the current message and progress.
    Abandon,
    /// Finishes the progress bar and sets a message, and leaves the current
    /// progress.
    AbandonWithMessage(String),
}

/// Two finish policies that agree up to the text of their message.
pub open spec fn same_finish(a: ProgressFinish, b: ProgressFinish) -> bool {
    match (a, b) {
        (ProgressFinish::AndLeave, ProgressFinish::AndLeave) => true,
        (ProgressFinish::WithMessage(x), ProgressFinish::WithMessage(y)) => x@ == y@,
        (ProgressFinish::AndClear, ProgressFinish::AndClear) => true,
        (ProgressFinish::Abandon, ProgressFinish::Abandon) => true,
        (ProgressFinish::AbandonWithMessage(x), ProgressFinish::AbandonWithMessage(y)) => x@ == y@,
        _ => false,
    }
}

impl Clone for ProgressFinish {
    fn clone(&self) -> (r: Self)
        ensures
            same_finish(*self, r),
    {
        match self {
            ProgressFinish::AndLeave => ProgressFinish::AndLeave,
            ProgressFinish::WithMessage(m) => ProgressFinish::WithMessage(m.clone()),
            ProgressFinish::AndClear => ProgressFinish::AndClear,
            ProgressFinish::Abandon => ProgressFinish::Abandon,
            ProgressFinish::AbandonWithMessage(m) => ProgressFinish::AbandonWithMessage(m.clone()),
        }
    }
}

impl Default for ProgressFinish {
    /// The default policy clears the bar.
    fn default() -> (r: Self)
        ensures
            r == ProgressFinish::AndClear,
    {
        ProgressFinish::AndClear
    }
}

/// One more animation frame, held at the counter's ceiling.
pub open spec fn spec_bump(t: u64) -> u64 {
    if t == u64::MAX {
        u64::MAX
    } else {
        (t + 1) as u64
    }
}

/// The tick-counter rule of a conditional redraw: the counter only advances
/// while no ticker exists or while it has never advanced, so a ticker-driven
/// bar animates from its ticker alone.
pub open spec fn spec_ticked(ticker: Option<u64>, t: u64) -> u64 {
    if ticker is None || t == 0 {
        spec_bump(t)
    } else {
        t
    }
}

/// The effect of one redraw pass on the surface: nothing unless the surface
/// permits it (it always does when forced or when the bar is finished), else
/// the bar's lines become the one formatted line, or nothing at all once the
/// bar is finished-and-hidden.
pub open spec fn draws_to(
    pre: DrawTarget,
    st: ProgressState,
    sty: Style,
    force: bool,
    now: u64,
    post: DrawTarget,
) -> bool {
    let forced = force || st.spec_is_finished();
    &&& post.spec_width() == pre.spec_width()
    &&& post.spec_rate() == pre.spec_rate()
    &&& post.spec_history() == pre.spec_history()
    &&& if pre.spec_permits(forced, now) {
        &&& post.spec_last_draw() == Option::Some(now)
        &&& if st.spec_status() == Status::DoneHidden {
            post.spec_visible().len() == 0
        } else {
            post.spec_visible().len() == 1 && post.spec_visible()[0]@ == spec_line(sty, st)
        }
    } else {
        post == pre
    }
}

/// The orchestrator: progress data, finish policy, style, drawing surface,
/// and the interval of the ticker if one was ever started.
pub struct BarState {
    pub(crate) draw_target: DrawTarget,
    pub(crate) on_finish: ProgressFinish,
    pub(crate) style: Style,
    pub(crate) state: ProgressState,
    pub(crate) ticker: Option<u64>,
}

impl BarState {
    pub closed spec fn spec_target(self) -> DrawTarget {
        self.draw_target
    }

    pub closed spec fn spec_on_finish(self) -> ProgressFinish {
        self.on_finish
    }

    pub closed spec fn spec_style(self) -> Style {
        self.style
    }

    pub closed spec fn spec_state(self) -> ProgressState {
        self.state
    }

    pub closed spec fn spec_ticker(self) -> Option<u64> {
        self.ticker
    }

    pub open spec fn wf(self) -> bool {
        self.spec_state().wf()
    }

    /// A fresh bar over a surface: everything at its initial value, the
    /// default finish policy, started at `now`.
    pub fn new(len: u64, draw_target: DrawTarget, now: u64) -> (b: BarState)
        ensures
            b.wf(),
            b.spec_target() == draw_target,
            b.spec_on_finish() == ProgressFinish::AndClear,
            b.spec_style().message@ == Seq::<char>::empty(),
            b.spec_style().prefix@ == Seq::<char>::empty(),
            b.spec_ticker() is None,
            b.spec_state().spec_pos() == 0,
            b.spec_state().spec_len() == len,
            b.spec_state().spec_tick() == 0,
            b.spec_state().spec_started() == now,
            b.spec_state().spec_status() == Status::InProgress,
            b.spec_state().spec_est().rates() == Seq::<u64>::empty(),
            b.spec_state().spec_est().prev_time() == now,
            !b.spec_state().spec_est().is_full(),
            b.spec_state().spec_est().slot() == 0,
    {
        BarState {
            draw_target,
            on_finish: ProgressFinish::default(),
            style: Style::default_bar(),
            state: ProgressState::new(len, now),
            ticker: Option::None,
        }
    }

    /// One redraw pass. A redraw is forced through once the bar is
    /// finished; otherwise the surface may refuse it. A refused redraw
    /// changes nothing and is no failure: rendering is best-effort.
    pub fn draw(&mut self, force: bool, now: u64)
        requires
            old(self).wf(),
        ensures
            final(self).wf(),
            final(self).spec_state() == old(self).spec_state(),
            final(self).spec_style() == old(self).spec_style(),
            final(self).spec_on_finish() == old(self).spec_on_finish(),
            final(self).spec_ticker() == old(self).spec_ticker(),
            draws_to(
                old(self).spec_target(),
                old(self).spec_state(),
                old(self).spec_style(),
                force,
                now,
                final(self).spec_target(),
            ),
    {
        let width: u64 = self.draw_target.width();
        let forced: bool = force || self.state.is_finished();
        if !self.draw_target.drawable(forced, now) {
            return ;
        }
        let mut lines: Vec<String> = Vec::new();
        if !matches!(self.state.status(), Status::DoneHidden) {
            self.style.format_state(&self.state, &mut lines, width);
        }
        self.draw_target.commit(lines);
    }

    /// A conditional redraw after a mutation: advance the animation frame
    /// when warranted, then draw without force.
    pub fn tick(&mut self, now: u64)
        requires
            old(self).wf(),
        ensures
            final(self).wf(),
            final(self).spec_state().spec_pos() == old(self).spec_state().spec_pos(),
            final(self).spec_state().spec_len() == old(self).spec_state().spec_len(),
            final(self).spec_state().spec_started() == old(self).spec_state().spec_started(),
            final(self).spec_state().spec_status() == old(self).spec_state().spec_status(),
            final(self).spec_state().spec_est() == old(self).spec_state().spec_est(),
            final(self).spec_state().spec_tick() == spec_ticked(
                old(self).spec_ticker(),
                old(self).spec_state().spec_tick(),
            ),
            final(self).spec_style() == old(self).spec_style(),
            final(self).spec_on_finish() == old(self).spec_on_finish(),
            final(self).spec_ticker() == old(self).spec_ticker(),
            draws_to(
                old(self).spec_target(),
                final(self).spec_state(),
                old(self).spec_style(),
                false,
                now,
                final(self).spec_target(),
            ),
    {
        if self.ticker.is_none() || self.state.tick_count() == 0 {
            let t: u64 = self.state.tick_count();
            self.state.set_tick(t.saturating_add(1));
        }
        self.draw(false, now);
    }

    /// Move the position to an absolute value; the covered distance (zero
    /// when moving backwards) is recorded as throughput.
    pub fn set_position(&mut self, now: u64, new: u64)
        requires
            old(self).wf(),
        ensures
            final(self).wf(),
            final(self).spec_state().spec_pos() == new,
            final(self).spec_state().spec_len() == old(self).spec_state().spec_len(),
            final(self).spec_state().spec_started() == old(self).spec_state().spec_started(),
            final(self).spec_state().spec_status() == old(self).spec_state().spec_status(),
            records_to(
                old(self).spec_state().spec_est(),
                sat_sub(new, old(self).spec_state().spec_pos()),
                now,
                final(self).spec_state().spec_est(),
            ),
            final(self).spec_state().spec_tick() == spec_ticked(
                old(self).spec_ticker(),
                old(self).spec_state().spec_tick(),
            ),
            final(self).spec_style() == old(self).spec_style(),
            final(self).spec_on_finish() == old(self).spec_on_finish(),
            final(self).spec_ticker() == old(self).spec_ticker(),
            draws_to(
                old(self).spec_target(),
                final(self).spec_state(),
                old(self).spec_style(),
                false,
                now,
                final(self).spec_target(),
            ),
    {
        let prev: u64 = self.state.pos();
        self.state.set_pos(new);
        self.state.record(new.saturating_sub(prev), now);
        self.tick(now);
    }

    /// Advance the position by a delta, saturating, and record the delta as
    /// throughput.
    pub fn inc(&mut self, now: u64, delta: u64)
        requires
            old(self).wf(),
        ensures
            final(self).wf(),
            final(self).spec_state().spec_pos() == crate::time::sat_add(
                old(self).spec_state().spec_pos(),
                delta,
            ),
            final(self).spec_state().spec_len() == old(self).spec_state().spec_len(),
            final(self).spec_state().spec_started() == old(self).spec_state().spec_started(),
            final(self).spec_state().spec_status() == old(self).spec_state().spec_status(),
            records_to(
                old(self).spec_state().spec_est(),
                delta,
                now,
                final(self).spec_state().spec_est(),
            ),
            final(self).spec_state().spec_tick() == spec_ticked(
                old(self).spec_ticker(),
                old(self).spec_state().spec_tick(),
            ),
            final(self).spec_style() == old(self).spec_style(),
            final(self).spec_on_finish() == old(self).spec_on_finish(),
            final(self).spec_ticker() == old(self).spec_ticker(),
            draws_to(
                old(self).spec_target(),
                final(self).spec_state(),
                old(self).spec_style(),
                false,
                now,
                final(self).spec_target(),
            ),
    {
        let p: u64 = self.state.pos();
        self.state.set_pos(p.saturating_add(delta));
        self.state.record(delta, now);
        self.tick(now);
    }

    /// Change the target length; no throughput is recorded.
    pub fn set_length(&mut self, now: u64, len: u64)
        requires
            old(self).wf(),
        ensures
            final(self).wf(),
            final(self).spec_state().spec_len() == len,
            final(self).spec_state().spec_pos() == old(self).spec_state().spec_pos(),
            final(self).spec_state().spec_started() == old(self).spec_state().spec_started(),
            final(self).spec_state().spec_status() == old(self).spec_state().spec_status(),
            final(self).spec_state().spec_est() == old(self).spec_state().spec_est(),
            final(self).spec_state().spec_tick() == spec_ticked(
                old(self).spec_ticker(),
                old(self).spec_state().spec_tick(),
            ),
            final(self).spec_style() == old(self).spec_style(),
            final(self).spec_on_finish() == old(self).spec_on_finish(),
            final(self).spec_ticker() == old(self).spec_ticker(),
            draws_to(
                old(self).spec_target(),
                final(self).spec_state(),
                old(self).spec_style(),
                false,
                now,
                final(self).spec_target(),
            ),
    {
        self.state.set_len(len);
        self.tick(now);
    }

    /// Grow the target length by a delta, saturating.
    pub fn inc_length(&mut self, now: u64, delta: u64)
        requires
            old(self).wf(),
        ensures
            final(self).wf(),
            final(self).spec_state().spec_len() == crate::time::sat_add(
                old(self).spec_state().spec_len(),
                delta,
            ),
            final(self).spec_state().spec_pos() == old(self).spec_state().spec_pos(),
            final(self).spec_state().spec_started() == old(self).spec_state().spec_started(),
            final(self).spec_state().spec_status() == old(self).spec_state().spec_status(),
            final(self).spec_state().spec_est() == old(self).spec_state().spec_est(),
            final(self).spec_state().spec_tick() == spec_ticked(
                old(self).spec_ticker(),
                old(self).spec_state().spec_tick(),
            ),
            final(self).spec_style() == old(self).spec_style(),
            final(self).spec_on_finish() == old(self).spec_on_finish(),
            final(self).spec_ticker() == old(self).spec_ticker(),
            draws_to(
                old(self).spec_target(),
                final(self).spec_state(),
                old(self).spec_style(),
                false,
                now,
                final(self).spec_target(),
            ),
    {
        let l: u64 = self.state.len();
        self.state.set_len(l.saturating_add(delta));
        self.tick(now);
    }

    /// Replace the displayed message.
    pub fn set_message(&mut self, now: u64, msg: String)
        requires
            old(self).wf(),
        ensures
            final(self).wf(),
            final(self).spec_style().message == msg,
            final(self).spec_style().prefix == old(self).spec_style().prefix,
            final(self).spec_state().spec_pos() == old(self).spec_state().spec_pos(),
            final(self).spec_state().spec_len() == old(self).spec_state().spec_len(),
            final(self).spec_state().spec_started() == old(self).spec_state().spec_started(),
            final(self).spec_state().spec_status() == old(self).spec_state().spec_status(),
            final(self).spec_state().spec_est() == old(self).spec_state().spec_est(),
            final(self).spec_state().spec_tick() == spec_ticked(
                old(self).spec_ticker(),
                old(self).spec_state().spec_tick(),
            ),
            final(self).spec_on_finish() == old(self).spec_on_finish(),
            final(self).spec_ticker() == old(self).spec_ticker(),
            draws_to(
                old(self).spec_target(),
                final(self).spec_state(),
                final(self).spec_style(),
                false,
                now,
                final(self).spec_target(),
            ),
    {
        self.style.message = msg;
        self.tick(now);
    }

    /// Replace the displayed prefix.
    pub fn set_prefix(&mut self, now: u64, prefix: String)
        requires
            old(self).wf(),
        ensures
            final(self).wf(),
            final(self).spec_style().prefix == prefix,
            final(self).spec_style().message == old(self).spec_style().message,
            final(self).spec_state().spec_pos() == old(self).spec_state().spec_pos(),
            final(self).spec_state().spec_len() == old(self).spec_state().spec_len(),
            final(self).spec_state().spec_started() == old(self).spec_state().spec_started(),
            final(self).spec_state().spec_status() == old(self).spec_state().spec_status(),
            final(self).spec_state().spec_est() == old(self).spec_state().spec_est(),
            final(self).spec_state().spec_tick() == spec_ticked(
                old(self).spec_ticker(),
                old(self).spec_state().spec_tick(),
            ),
            final(self).spec_on_finish() == old(self).spec_on_finish(),
            final(self).spec_ticker() == old(self).spec_ticker(),
            draws_to(
                old(self).spec_target(),
                final(self).spec_state(),
                final(self).spec_style(),
                false,
                now,
                final(self).spec_target(),
            ),
    {
        self.style.prefix = prefix;
        self.tick(now);
    }

    /// Finish the bar under a given policy and force a redraw. `AndLeave`,
    /// `WithMessage` and `AndClear` snap the position to the length; the
    /// `Abandon` policies leave it. `AndClear` hides the bar, every other
    /// policy leaves it visible. The `WithMessage` policies replace the
    /// message. No estimate is recorded: once finished, the queries use the
    /// length and the elapsed time instead.
    pub fn finish_using_style(&mut self, now: u64, finish: ProgressFinish)
        requires
            old(self).wf(),
        ensures
            final(self).wf(),
            final(self).spec_state().spec_is_finished(),
            final(self).spec_state().spec_status() == (if finish is AndClear {
                Status::DoneHidden
            } else {
                Status::DoneVisible
            }),
            final(self).spec_state().spec_pos() == (match finish {
                ProgressFinish::AndLeave
                | ProgressFinish::WithMessage(_)
                | ProgressFinish::AndClear => old(self).spec_state().spec_len(),
                ProgressFinish::Abandon
                | ProgressFinish::AbandonWithMessage(_) => old(self).spec_state().spec_pos(),
            }),
            final(self).spec_style().message == (match finish {
                ProgressFinish::WithMessage(m) | ProgressFinish::AbandonWithMessage(m) => m,
                _ => old(self).spec_style().message,
            }),
            final(self).spec_style().prefix == old(self).spec_style().prefix,
            final(self).spec_state().spec_len() == old(self).spec_state().spec_len(),
            final(self).spec_state().spec_tick() == old(self).spec_state().spec_tick(),
            final(self).spec_state().spec_started() == old(self).spec_state().spec_started(),
            final(self).spec_state().spec_est() == old(self).spec_state().spec_est(),
            final(self).spec_on_finish() == old(self).spec_on_finish(),
            final(self).spec_ticker() == old(self).spec_ticker(),
            draws_to(
                old(self).spec_target(),
                final(self).spec_state(),
                final(self).spec_style(),
                true,
                now,
                final(self).spec_target(),
            ),
    {
        self.state.set_status(Status::DoneVisible);
        match finish {
            ProgressFinish::AndLeave => {
                let l: u64 = self.state.len();
                self.state.set_pos(l);
            },
            ProgressFinish::WithMessage(msg) => {
                let l: u64 = self.state.len();
                self.state.set_pos(l);
                self.style.message = msg;
            },
            ProgressFinish::AndClear => {
                let l: u64 = self.state.len();
                self.state.set_pos(l);
                self.state.set_status(Status::DoneHidden);
            },
            ProgressFinish::Abandon => {},
            ProgressFinish::AbandonWithMessage(msg) => {
                self.style.message = msg;
            },
        }
        self.draw(true, now);
    }

    /// Reinitialize the selected parts of the bar: the estimator for `Eta`,
    /// the start time for `Elapsed`, and additionally position and status
    /// for `All`, which also forces a redraw through.
    pub fn reset(&mut self, now: u64, mode: Reset)
        requires
            old(self).wf(),
        ensures
            final(self).wf(),
            matches!(mode, Reset::Eta | Reset::All) ==> final(self).spec_state().spec_est().rates()
                == Seq::<u64>::empty() && final(self).spec_state().spec_est().prev_time() == now
                && !final(self).spec_state().spec_est().is_full()
                && final(self).spec_state().spec_est().slot() == 0,
            mode is Elapsed || mode is All ==> final(self).spec_state().spec_started() == now,
            mode is Eta ==> final(self).spec_state().spec_started() == old(self).spec_state().spec_started(),
            mode is Elapsed ==> final(self).spec_state().spec_est() == old(self).spec_state().spec_est(),
            mode is All ==> final(self).spec_state().spec_pos() == 0 && final(self).spec_state().spec_status() == Status::InProgress,
            !(mode is All) ==> final(self).spec_state().spec_pos() == old(self).spec_state().spec_pos() && final(self).spec_state().spec_status() == old(self).spec_state().spec_status() && final(self).spec_target() == old(self).spec_target(),
            mode is All ==> draws_to(
                old(self).spec_target(),
                final(self).spec_state(),
                final(self).spec_style(),
                true,
                now,
                final(self).spec_target(),
            ),
            final(self).spec_state().spec_len() == old(self).spec_state().spec_len(),
            final(self).spec_state().spec_tick() == old(self).spec_state().spec_tick(),
            final(self).spec_style() == old(self).spec_style(),
            final(self).spec_on_finish() == old(self).spec_on_finish(),
            final(self).spec_ticker() == old(self).spec_ticker(),
    {
        if matches!(mode, Reset::Eta | Reset::All) {
            self.state.reset_est(now);
        }
        if matches!(mode, Reset::Elapsed | Reset::All) {
            self.state.set_started(now);
        }
        if matches!(mode, Reset::All) {
            self.state.set_pos(0);
            self.state.set_status(Status::InProgress);
            self.draw(true, now);
        }
    }

    /// Apply a caller-supplied transformation of the progress data, then
    /// record the resulting position delta (zero when moving backwards) and
    /// redraw conditionally. The transformation is applied exactly once.
    pub fn update<F: FnOnce(&ProgressState) -> ProgressState>(&mut self, now: u64, f: F)
        requires
            old(self).wf(),
            call_requires(f, (&old(self).spec_state(),)),
            forall|s: ProgressState|
                #[trigger] call_ensures(f, (&old(self).spec_state(),), s) ==> s.wf(),
        ensures
            final(self).wf(),
            exists|mid: ProgressState|
                {
                    &&& #[trigger] call_ensures(f, (&old(self).spec_state(),), mid)
                    &&& final(self).spec_state().spec_pos() == mid.spec_pos()
                    &&& final(self).spec_state().spec_len() == mid.spec_len()
                    &&& final(self).spec_state().spec_started() == mid.spec_started()
                    &&& final(self).spec_state().spec_status() == mid.spec_status()
                    &&& records_to(
                        mid.spec_est(),
                        sat_sub(mid.spec_pos(), old(self).spec_state().spec_pos()),
                        now,
                        final(self).spec_state().spec_est(),
                    )
                    &&& final(self).spec_state().spec_tick() == spec_ticked(
                        old(self).spec_ticker(),
                        mid.spec_tick(),
                    )
                },
            final(self).spec_style() == old(self).spec_style(),
            final(self).spec_on_finish() == old(self).spec_on_finish(),
            final(self).spec_ticker() == old(self).spec_ticker(),
            draws_to(
                old(self).spec_target(),
                final(self).spec_state(),
                old(self).spec_style(),
                false,
                now,
                final(self).spec_target(),
            ),
    {
        let prev: u64 = self.state.pos();
        let mid = f(&self.state);
        self.state = mid;
        let new: u64 = self.state.pos();
        self.state.record(new.saturating_sub(prev), now);
        self.tick(now);
    }

    /// Commit the caller's text above the bar as literal lines, one per
    /// text line of `msg`, never to be reformatted, and re-draw the bar's
    /// own line below them (none once hidden). Bypasses the rate limit so
    /// interleaved log output is never dropped.
    pub fn println(&mut self, now: u64, msg: &str)
        requires
            old(self).wf(),
        ensures
            final(self).wf(),
            final(self).spec_state() == old(self).spec_state(),
            final(self).spec_style() == old(self).spec_style(),
            final(self).spec_on_finish() == old(self).spec_on_finish(),
            final(self).spec_ticker() == old(self).spec_ticker(),
            final(self).spec_target().spec_width() == old(self).spec_target().spec_width(),
            final(self).spec_target().spec_rate() == old(self).spec_target().spec_rate(),
            final(self).spec_target().spec_last_draw() == Option::Some(now),
            final(self).spec_target().spec_history().len() == old(self).spec_target().spec_history().len() + spec_split_lines(msg@).len(),
            forall|i: int|
                0 <= i < old(self).spec_target().spec_history().len() ==> final(self).spec_target().spec_history()[i] == old(self).spec_target().spec_history()[i],
            forall|i: int|
                0 <= i < spec_split_lines(msg@).len() ==> final(self).spec_target().spec_history()[old(self).spec_target().spec_history().len() + i]@ == spec_split_lines(msg@)[i],
            if old(self).spec_state().spec_status() == Status::DoneHidden {
                final(self).spec_target().spec_visible().len() == 0
            } else {
                final(self).spec_target().spec_visible().len() == 1 && final(self).spec_target().spec_visible()[0]@ == spec_line(
                    old(self).spec_style(),
                    old(self).spec_state(),
                )
            },
    {
        let width: u64 = self.draw_target.width();
        if !self.draw_target.drawable(true, now) {
            return ;
        }
        self.draw_target.append_orphans(split_lines(msg));
        let mut lines: Vec<String> = Vec::new();
        if !matches!(self.state.status(), Status::DoneHidden) {
            self.style.format_state(&self.state, &mut lines, width);
        }
        self.draw_target.commit(lines);
    }

    /// Clear the bar's lines, run the caller's thunk, then force a redraw,
    /// and hand the thunk's result back unchanged. Lets a caller perform
    /// unrelated terminal output without visual corruption.
    pub fn suspend<F: FnOnce() -> R, R>(&mut self, now: u64, f: F) -> (r: R)
        requires
            old(self).wf(),
            call_requires(f, ()),
        ensures
            final(self).wf(),
            call_ensures(f, (), r),
            final(self).spec_state() == old(self).spec_state(),
            final(self).spec_style() == old(self).spec_style(),
            final(self).spec_on_finish() == old(self).spec_on_finish(),
            final(self).spec_ticker() == old(self).spec_ticker(),
            draws_to(
                old(self).spec_target(),
                old(self).spec_state(),
                old(self).spec_style(),
                true,
                now,
                final(self).spec_target(),
            ),
    {
        if self.draw_target.drawable(true, now) {
            self.draw_target.clear();
        }
        let ret = f();
        self.draw(true, now);
        ret
    }

    /// The drop safety net: if the bar is still in progress, finish it under
    /// the configured policy and force a redraw; a bar that is already
    /// finished is left untouched. Afterwards the bar is always finished.
    pub fn finalize(&mut self, now: u64)
        requires
            old(self).wf(),
        ensures
            final(self).wf(),
            final(self).spec_state().spec_is_finished(),
            old(self).spec_state().spec_is_finished() ==> *final(self) == *old(self),
            !old(self).spec_state().spec_is_finished() ==> {
                &&& final(self).spec_state().spec_status() == (if old(self).spec_on_finish() is AndClear {
                    Status::DoneHidden
                } else {
                    Status::DoneVisible
                })
                &&& final(self).spec_state().spec_pos() == (match old(self).spec_on_finish() {
                    ProgressFinish::AndLeave
                    | ProgressFinish::WithMessage(_)
                    | ProgressFinish::AndClear => old(self).spec_state().spec_len(),
                    ProgressFinish::Abandon
                    | ProgressFinish::AbandonWithMessage(_) => old(self).spec_state().spec_pos(),
                })
                &&& final(self).spec_style().message@ == (match old(self).spec_on_finish() {
                    ProgressFinish::WithMessage(m)
                    | ProgressFinish::AbandonWithMessage(m) => m@,
                    _ => old(self).spec_style().message@,
                })
                &&& final(self).spec_style().prefix == old(self).spec_style().prefix
                &&& final(self).spec_ticker() == old(self).spec_ticker()
                &&& draws_to(
                    old(self).spec_target(),
                    final(self).spec_state(),
                    final(self).spec_style(),
                    true,
                    now,
                    final(self).spec_target(),
                )
            },
    {
        if self.state.is_finished() {
            return ;
        }
        let policy = self.on_finish.clone();
        self.finish_using_style(now, policy);
    }

    /// The decision half of starting a background ticker. A zero interval
    /// disables ticking and changes nothing. If a ticker already exists,
    /// only its stored interval is retuned: at most one ticker ever runs per
    /// bar. Otherwise the interval is recorded, a first tick is driven, and
    /// the result tells the caller that now — and only now — a ticker
    /// thread must be started.
    pub fn spawn_ticker(&mut self, interval: u64, now: u64) -> (started: bool)
        requires
            old(self).wf(),
        ensures
            final(self).wf(),
            interval == 0 ==> !started && *final(self) == *old(self),
            interval > 0 && old(self).spec_ticker() is Some ==> {
                &&& !started
                &&& final(self).spec_ticker() == Option::Some(interval)
                &&& final(self).spec_state() == old(self).spec_state()
                &&& final(self).spec_style() == old(self).spec_style()
                &&& final(self).spec_on_finish() == old(self).spec_on_finish()
                &&& final(self).spec_target() == old(self).spec_target()
            },
            interval > 0 && old(self).spec_ticker() is None ==> {
                &&& started
                &&& final(self).spec_ticker() == Option::Some(interval)
                &&& final(self).spec_state().spec_pos() == old(self).spec_state().spec_pos()
                &&& final(self).spec_state().spec_len() == old(self).spec_state().spec_len()
                &&& final(self).spec_state().spec_started() == old(self).spec_state().spec_started()
                &&& final(self).spec_state().spec_status() == old(self).spec_state().spec_status()
                &&& final(self).spec_state().spec_est() == old(self).spec_state().spec_est()
                &&& final(self).spec_state().spec_tick() == spec_ticked(
                    Option::Some(interval),
                    old(self).spec_state().spec_tick(),
                )
                &&& final(self).spec_style() == old(self).spec_style()
                &&& final(self).spec_on_finish() == old(self).spec_on_finish()
                &&& draws_to(
                    old(self).spec_target(),
                    final(self).spec_state(),
                    old(self).spec_style(),
                    false,
                    now,
                    final(self).spec_target(),
                )
            },
    {
        if interval == 0 {
            return false;
        }
        if self.ticker.is_some() {
            self.ticker = Option::Some(interval);
            return false;
        }
        self.ticker = Option::Some(interval);
        self.tick(now);
        true
    }

    /// The decision half of one ticker wake-up. Returns the interval to
    /// sleep before the next wake, re-read so a later retune takes effect,
    /// or nothing when the ticker must stop: once the bar is finished or no
    /// ticker is registered. On a live wake the frame counter advances only
    /// if ticking has previously been engaged, and an unforced redraw is
    /// driven.
    pub fn ticker_step(&mut self, now: u64) -> (r: Option<u64>)
        requires
            old(self).wf(),
        ensures
            final(self).wf(),
            old(self).spec_ticker() is None || old(self).spec_state().spec_is_finished() ==> r
                is None && *final(self) == *old(self),
            !(old(self).spec_ticker() is None || old(self).spec_state().spec_is_finished()) ==> {
                &&& r == old(self).spec_ticker()
                &&& final(self).spec_state().spec_tick() == (if old(self).spec_state().spec_tick() == 0 {
                    0
                } else {
                    spec_bump(old(self).spec_state().spec_tick())
                })
                &&& final(self).spec_state().spec_pos() == old(self).spec_state().spec_pos()
                &&& final(self).spec_state().spec_len() == old(self).spec_state().spec_len()
                &&& final(self).spec_state().spec_started() == old(self).spec_state().spec_started()
                &&& final(self).spec_state().spec_status() == old(self).spec_state().spec_status()
                &&& final(self).spec_state().spec_est() == old(self).spec_state().spec_est()
                &&& final(self).spec_style() == old(self).spec_style()
                &&& final(self).spec_on_finish() == old(self).spec_on_finish()
                &&& final(self).spec_ticker() == old(self).spec_ticker()
                &&& draws_to(
                    old(self).spec_target(),
                    final(self).spec_state(),
                    old(self).spec_style(),
                    false,
                    now,
                    final(self).spec_target(),
                )
            },
    {
        let interval: u64 = match self.ticker {
            Option::Some(i) => i,
            Option::None => {
                return Option::None;
            },
        };
        if self.state.is_finished() {
            return Option::None;
        }
        if self.state.tick_count() != 0 {
            let t: u64 = self.state.tick_count();
            self.state.set_tick(t.saturating_add(1));
        }
        self.draw(false, now);
        Option::Some(interval)
    }

    /// The progress data, read-only.
    pub fn state(&self) -> (r: &ProgressState)
        ensures
            *r == self.spec_state(),
    {
        &self.state
    }

    /// The style, read-only.
    pub fn style(&self) -> (r: &Style)
        ensures
            *r == self.spec_style(),
    {
        &self.style
    }

    /// The drawing surface, read-only.
    pub fn target(&self) -> (r: &DrawTarget)
        ensures
            *r == self.spec_target(),
    {
        &self.draw_target
    }

    /// The interval of the registered ticker, if any.
    pub fn ticker_interval(&self) -> (r: Option<u64>)
        ensures
            r == self.spec_ticker(),
    {
        self.ticker
    }
}

} // verus!
