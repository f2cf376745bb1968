use indicatif::bar::{BarState, ProgressFinish, Reset};
use indicatif::draw_target::DrawTarget;
use indicatif::estimator::Estimator;
use indicatif::state::{ProgressState, Status, UNBOUNDED};
use indicatif::time::Dur;

fn test_rate(items_per_second: u64) {
    let mut est = Estimator::new(0);
    let mut now: u64 = 0;
    for _ in 0..16 {
        now += 1_000_000_000;
        est.record(items_per_second, now);
    }
    let expected = 1_000_000_000u64 / items_per_second;
    assert_eq!(est.nanos_per_step(), Some(expected));
}

#[test]
fn test_time_per_step() {
    test_rate(1);
    test_rate(1_000);
    test_rate(1_000_000);
    test_rate(1_000_000_000);
    test_rate(1_000_000_001);
    test_rate(100_000_000_000);
    test_rate(1_000_000_000_000);
    test_rate(100_000_000_000_000);
    test_rate(1_000_000_000_000_000);
}

#[test]
fn steady_rate_converges_after_wrap() {
    // A constant throughput of k units per 1-second tick, sustained past a
    // full ring wrap, is estimated as exactly 1/k seconds per unit for
    // every k whose rate is a whole number of nanoseconds.
    for k in [1u64, 1_000, 1_000_000, 1_000_000_000] {
        let mut est = Estimator::new(0);
        let mut now: u64 = 0;
        for _ in 0..24 {
            now += 1_000_000_000;
            est.record(k, now);
        }
        let measured = est.nanos_per_step().unwrap() as f64 / 1e9;
        let expected = 1.0 / k as f64;
        assert!((measured - expected).abs() < f64::EPSILON);
    }
}

#[test]
fn test_duration_stuff() {
    let duration = Dur::new(42, 100_000_000);
    let nanos = duration.as_nanos();
    assert_eq!(Dur::from_nanos(nanos), duration);
}

#[test]
fn duration_round_trip_at_extremes() {
    for d in [Dur::zero(), Dur::new(0, 999_999_999), Dur::new(u64::MAX, 999_999_999)] {
        assert_eq!(Dur::from_nanos(d.as_nanos()), d);
    }
}

#[test]
fn empty_estimator_has_no_rate() {
    let est = Estimator::new(0);
    assert_eq!(est.nanos_per_step(), None);
}

#[test]
fn zero_delta_is_noop() {
    let mut est = Estimator::new(0);
    est.record(0, 100);
    // The zero-delta call above must not have moved the reference time:
    // the next sample still measures from t = 0.
    est.record(2, 200);
    assert_eq!(est.nanos_per_step(), Some(100));
}

#[test]
fn mean_of_recorded_rates() {
    let mut est = Estimator::new(0);
    est.record(1, 100); // rate 100
    est.record(1, 400); // rate 300
    est.record(2, 800); // rate 200
    assert_eq!(est.nanos_per_step(), Some(200));
}

#[test]
fn ring_keeps_last_sixteen() {
    let mut est = Estimator::new(0);
    let mut now: u64 = 1_000_000;
    est.record(1, now); // rate 1_000_000, pushed out by the sixteen below
    for _ in 0..16 {
        now += 1_000;
        est.record(1, now);
    }
    assert_eq!(est.nanos_per_step(), Some(1_000));
}

#[test]
fn reset_discards_history() {
    let mut est = Estimator::new(0);
    est.record(1, 500);
    est.reset(1_000);
    assert_eq!(est.nanos_per_step(), None);
    est.record(1, 1_300);
    assert_eq!(est.nanos_per_step(), Some(300));
}

#[test]
fn fraction_zero_length_is_complete() {
    let s = ProgressState::new(0, 0);
    let f = s.fraction();
    assert_eq!((f.num, f.den), (1, 1));
}

#[test]
fn fraction_fresh_bar_is_zero() {
    let s = ProgressState::new(10, 0);
    let f = s.fraction();
    assert_eq!((f.num, f.den), (0, 10));
}

#[test]
fn fraction_clamps_overshoot() {
    let mut s = ProgressState::new(10, 0);
    s.set_pos(25);
    let f = s.fraction();
    assert_eq!((f.num, f.den), (10, 10));
    assert!(f.num <= f.den && f.den >= 1);
}

#[test]
fn eta_zero_when_unbounded() {
    let s = ProgressState::new(UNBOUNDED, 0);
    assert_eq!(s.eta(), 0);
    assert_eq!(s.duration(5_000), 0);
}

#[test]
fn eta_zero_once_finished() {
    let mut bar = BarState::new(10, DrawTarget::new(80, 0), 0);
    bar.inc(1_000, 2);
    bar.finish_using_style(2_000, ProgressFinish::AndLeave);
    assert_eq!(bar.state().eta(), 0);
    assert_eq!(bar.state().duration(3_000), 0);
}

#[test]
fn eta_tracks_mean_rate() {
    let mut bar = BarState::new(10, DrawTarget::new(80, 0), 0);
    bar.inc(1_000, 2); // 2 units in 1_000 ns: rate 500 ns per unit
    assert_eq!(bar.state().eta(), 4_000); // 8 units remain
    assert_eq!(bar.state().duration(1_000), 5_000);
}

#[test]
fn per_sec_unknown_rate_is_zero() {
    let bar = BarState::new(10, DrawTarget::new(80, 0), 0);
    assert_eq!(bar.state().per_sec(500), 0);
}

#[test]
fn per_sec_in_progress_inverts_mean() {
    let mut bar = BarState::new(10, DrawTarget::new(80, 0), 0);
    bar.inc(2_000, 1); // rate 2_000 ns per unit
    assert_eq!(bar.state().per_sec(2_000), 500_000);
}

#[test]
fn per_sec_uses_true_average_once_finished() {
    let mut bar = BarState::new(5, DrawTarget::new(80, 0), 0);
    bar.inc(2_000_000_000, 5);
    bar.finish_using_style(2_000_000_000, ProgressFinish::AndLeave);
    // 5 units over 2 seconds: 2.5 per second, truncated.
    assert_eq!(bar.state().per_sec(2_000_000_000), 2);
}

#[test]
fn elapsed_before_start_is_zero() {
    let s = ProgressState::new(5, 1_000);
    assert_eq!(s.elapsed(500), 0);
    assert_eq!(s.elapsed(1_800), 800);
}

fn bar_with_message() -> BarState {
    let mut bar = BarState::new(10, DrawTarget::new(80, 0), 0);
    bar.set_message(0, String::from("before"));
    bar.set_position(100, 3);
    bar
}

#[test]
fn finish_and_leave() {
    let mut bar = bar_with_message();
    bar.finish_using_style(200, ProgressFinish::AndLeave);
    assert_eq!(bar.state().pos(), 10);
    assert_eq!(bar.state().status(), Status::DoneVisible);
    assert_eq!(bar.style().message, "before");
}

#[test]
fn finish_with_message() {
    let mut bar = bar_with_message();
    bar.finish_using_style(200, ProgressFinish::WithMessage(String::from("done")));
    assert_eq!(bar.state().pos(), 10);
    assert_eq!(bar.state().status(), Status::DoneVisible);
    assert_eq!(bar.style().message, "done");
}

#[test]
fn finish_and_clear() {
    let mut bar = bar_with_message();
    bar.finish_using_style(200, ProgressFinish::AndClear);
    assert_eq!(bar.state().pos(), 10);
    assert_eq!(bar.state().status(), Status::DoneHidden);
    assert_eq!(bar.style().message, "before");
    assert_eq!(bar.target().visible_lines().len(), 0);
}

#[test]
fn finish_abandon() {
    let mut bar = bar_with_message();
    bar.finish_using_style(200, ProgressFinish::Abandon);
    assert_eq!(bar.state().pos(), 3);
    assert_eq!(bar.state().status(), Status::DoneVisible);
    assert_eq!(bar.style().message, "before");
}

#[test]
fn finish_abandon_with_message() {
    let mut bar = bar_with_message();
    bar.finish_using_style(200, ProgressFinish::AbandonWithMessage(String::from("gone")));
    assert_eq!(bar.state().pos(), 3);
    assert_eq!(bar.state().status(), Status::DoneVisible);
    assert_eq!(bar.style().message, "gone");
}

#[test]
fn drop_safety_net_finishes() {
    let mut bar = BarState::new(10, DrawTarget::new(80, 0), 0);
    bar.inc(100, 3);
    assert!(!bar.state().is_finished());
    bar.finalize(200);
    assert!(bar.state().is_finished());
    // The default policy clears the bar.
    assert_eq!(bar.state().status(), Status::DoneHidden);
    assert_eq!(bar.state().pos(), 10);
    assert_eq!(bar.target().visible_lines().len(), 0);
    // A second finalize leaves a finished bar untouched.
    bar.finalize(300);
    assert_eq!(bar.state().status(), Status::DoneHidden);
}

#[test]
fn ticker_spawned_twice_keeps_one() {
    let mut bar = BarState::new(10, DrawTarget::new(80, 0), 0);
    assert!(bar.spawn_ticker(5_000, 0));
    // A second spawn only retunes the interval: no second ticker starts.
    assert!(!bar.spawn_ticker(7_000, 10));
    assert_eq!(bar.ticker_interval(), Some(7_000));
    // A live wake sleeps the retuned interval next.
    assert_eq!(bar.ticker_step(20), Some(7_000));
    bar.finish_using_style(30, ProgressFinish::Abandon);
    // Once finished, the ticker stops.
    assert_eq!(bar.ticker_step(40), None);
}

#[test]
fn zero_interval_disables_ticker() {
    let mut bar = BarState::new(10, DrawTarget::new(80, 0), 0);
    assert!(!bar.spawn_ticker(0, 0));
    assert_eq!(bar.ticker_interval(), None);
    assert_eq!(bar.ticker_step(10), None);
}

#[test]
fn tick_counter_rules() {
    let mut bar = BarState::new(10, DrawTarget::new(80, 0), 0);
    bar.tick(0);
    assert_eq!(bar.state().tick_count(), 1);
    bar.tick(1);
    assert_eq!(bar.state().tick_count(), 2);
    bar.spawn_ticker(100, 2);
    // With a ticker engaged, explicit ticks no longer advance the counter.
    bar.tick(3);
    assert_eq!(bar.state().tick_count(), 2);
    // The ticker's own wakes do.
    bar.ticker_step(4);
    assert_eq!(bar.state().tick_count(), 3);
}

#[test]
fn draw_renders_gauge_line() {
    let mut bar = BarState::new(10, DrawTarget::new(80, 0), 0);
    bar.set_prefix(0, String::from("["));
    bar.set_message(0, String::from("]"));
    bar.set_position(10, 5);
    let vis = bar.target().visible_lines();
    assert_eq!(vis.len(), 1);
    assert_eq!(vis[0], "[########]");
}

#[test]
fn unforced_redraw_rate_limited() {
    let mut bar = BarState::new(10, DrawTarget::new(80, 1_000), 0);
    bar.set_position(0, 1);
    let before = bar.target().visible_lines()[0].clone();
    bar.set_position(500, 9); // refused: too soon after the last redraw
    assert_eq!(bar.target().visible_lines()[0], before);
    bar.set_position(1_500, 9); // permitted again
    assert_ne!(bar.target().visible_lines()[0], before);
}

#[test]
fn finished_draw_forces_through_rate_limit() {
    let mut bar = BarState::new(10, DrawTarget::new(80, 1_000_000), 0);
    bar.set_position(0, 1);
    bar.finish_using_style(1, ProgressFinish::AndClear);
    assert_eq!(bar.target().visible_lines().len(), 0);
}

#[test]
fn println_keeps_orphan_lines_above() {
    let mut bar = BarState::new(4, DrawTarget::new(80, 0), 0);
    bar.set_position(10, 2);
    bar.println(20, "log line");
    assert_eq!(bar.target().history_lines().len(), 1);
    assert_eq!(bar.target().history_lines()[0], "log line");
    assert_eq!(bar.target().visible_lines().len(), 1);
    bar.finish_using_style(30, ProgressFinish::AndClear);
    bar.println(40, "after");
    assert_eq!(bar.target().history_lines().len(), 2);
    assert_eq!(bar.target().history_lines()[1], "after");
    assert_eq!(bar.target().visible_lines().len(), 0);
}

#[test]
fn println_splits_text_at_line_breaks() {
    let mut bar = BarState::new(4, DrawTarget::new(80, 0), 0);
    bar.println(10, "first\nsecond\n");
    let history = bar.target().history_lines();
    assert_eq!(history.len(), 2);
    assert_eq!(history[0], "first");
    assert_eq!(history[1], "second");
    // Empty text commits no orphan line at all.
    bar.println(20, "");
    assert_eq!(bar.target().history_lines().len(), 2);
    // An embedded empty line is kept.
    bar.println(30, "a\n\nb");
    let history = bar.target().history_lines();
    assert_eq!(history.len(), 5);
    assert_eq!(history[2], "a");
    assert_eq!(history[3], "");
    assert_eq!(history[4], "b");
}

#[test]
fn suspend_returns_thunk_result_and_redraws() {
    let mut bar = BarState::new(4, DrawTarget::new(80, 0), 0);
    bar.set_position(10, 1);
    let out = bar.suspend(20, || 7);
    assert_eq!(out, 7);
    assert_eq!(bar.target().visible_lines().len(), 1);
}

#[test]
fn update_applies_transformation_once() {
    let mut bar = BarState::new(10, DrawTarget::new(80, 0), 0);
    bar.update(1_000, |s: &ProgressState| {
        let mut t = ProgressState::new(s.len(), 0);
        t.set_pos(s.pos() + 4);
        t
    });
    assert_eq!(bar.state().pos(), 4);
    // The covered distance was recorded: 4 units over 1_000 ns, so the
    // mean rate is 250 ns per unit.
    assert_eq!(bar.state().per_sec(1_000), 4_000_000);
}

#[test]
fn reset_all_restarts_the_bar() {
    let mut bar = BarState::new(10, DrawTarget::new(80, 0), 0);
    bar.inc(1_000, 2);
    bar.finish_using_style(2_000, ProgressFinish::Abandon);
    bar.reset(3_000, Reset::All);
    assert_eq!(bar.state().pos(), 0);
    assert_eq!(bar.state().status(), Status::InProgress);
    assert_eq!(bar.state().per_sec(3_500), 0); // estimator cleared
    assert_eq!(bar.state().elapsed(3_500), 500); // start time moved
}

#[test]
fn reset_eta_keeps_elapsed() {
    let mut bar = BarState::new(10, DrawTarget::new(80, 0), 0);
    bar.inc(1_000, 2);
    bar.reset(5_000, Reset::Eta);
    assert_eq!(bar.state().per_sec(6_000), 0); // estimator cleared
    assert_eq!(bar.state().elapsed(6_000), 6_000); // start time kept
}

#[test]
fn reset_elapsed_keeps_estimate() {
    let mut bar = BarState::new(10, DrawTarget::new(80, 0), 0);
    bar.inc(1_000, 2);
    bar.reset(5_000, Reset::Elapsed);
    assert_eq!(bar.state().elapsed(5_400), 400); // start time moved
    assert_eq!(bar.state().per_sec(5_400), 2_000_000); // rate 500 kept
}

#[test]
fn length_updates() {
    let mut bar = BarState::new(10, DrawTarget::new(80, 0), 0);
    bar.set_length(1, 20);
    assert_eq!(bar.state().len(), 20);
    bar.inc_length(2, 5);
    assert_eq!(bar.state().len(), 25);
    bar.set_length(3, u64::MAX);
    bar.inc_length(4, 10);
    assert_eq!(bar.state().len(), u64::MAX); // saturates
}

#[test]
fn set_position_records_only_forward_motion() {
    let mut bar = BarState::new(10, DrawTarget::new(80, 0), 0);
    bar.set_position(1_000, 4); // 4 units in 1_000 ns: rate 250
    bar.set_position(2_000, 2); // moving backwards records a zero delta
    assert_eq!(bar.state().pos(), 2);
    assert_eq!(bar.state().per_sec(2_000), 4_000_000); // still rate 250
}
