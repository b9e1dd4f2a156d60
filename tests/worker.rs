use autoclicker::{
    click_once, Button, ClickPattern, ClickType, InputAction, LocationMode, Mode, Phase,
    StartConfig, Worker, WorkerAction, WorkerEvent,
};

fn config(pattern: ClickPattern, mode: Mode, repeat_count: u64) -> StartConfig {
    StartConfig {
        pattern,
        clicks_per_second: 10,
        jitter_min_ms: 5,
        jitter_max_ms: 500,
        mode,
        repeat_count,
        button: Button::Left,
        click_type: ClickType::Single,
        location_mode: LocationMode::Cursor,
        fixed_x: 0,
        fixed_y: 0,
        start_delay_sec: 0,
    }
}

/// Runs a worker with the capability acquired and the flag always set, for
/// at most `limit` steps; returns every action it asked for.
fn drive_uninterrupted(c: StartConfig, limit: usize) -> Vec<WorkerAction> {
    let mut w = Worker::new(c, 1);
    let mut action = w.pending();
    let mut seen = vec![action];
    for _ in 0..limit {
        let event = match action {
            WorkerAction::AcquireCapability => WorkerEvent::Acquired { ok: true },
            WorkerAction::ReadRunning => WorkerEvent::Observed { running: true },
            WorkerAction::Finish { .. } => break,
            _ => WorkerEvent::Proceed,
        };
        action = w.step(event);
        seen.push(action);
    }
    seen
}

fn iterations(actions: &[WorkerAction]) -> usize {
    actions.iter().filter(|a| matches!(a, WorkerAction::Iterate { .. })).count()
}

#[test]
fn five_constant_left_clicks_at_cursor_then_stops() {
    let c = config(ClickPattern::Constant, Mode::Repeat, 5);
    assert_eq!(
        click_once(&c),
        vec![InputAction::Click { button: Button::Left }]
    );
    let actions = drive_uninterrupted(c, 100);
    let mut expected = vec![WorkerAction::AcquireCapability];
    for _ in 0..5 {
        expected.push(WorkerAction::ReadRunning);
        expected.push(WorkerAction::Iterate { delay_before_ms: 0, delay_after_ms: 100 });
    }
    expected.push(WorkerAction::Finish { clear_running: true });
    assert_eq!(actions, expected);
}

#[test]
fn repeat_zero_clicks_never_and_clears_flag() {
    let actions = drive_uninterrupted(config(ClickPattern::Constant, Mode::Repeat, 0), 100);
    assert_eq!(
        actions,
        vec![
            WorkerAction::AcquireCapability,
            WorkerAction::Finish { clear_running: true },
        ]
    );
}

#[test]
fn repeat_issues_exactly_n_iterations() {
    for n in [1u64, 2, 7, 40] {
        let actions = drive_uninterrupted(config(ClickPattern::Constant, Mode::Repeat, n), 1000);
        assert_eq!(iterations(&actions), n as usize);
        assert_eq!(
            actions.last(),
            Some(&WorkerAction::Finish { clear_running: true })
        );
    }
}

#[test]
fn jitter_repeat_waits_before_each_click_within_bounds() {
    let actions = drive_uninterrupted(config(ClickPattern::Jitter, Mode::Repeat, 200), 1000);
    assert_eq!(iterations(&actions), 200);
    let mut delays = Vec::new();
    for a in &actions {
        if let WorkerAction::Iterate { delay_before_ms, delay_after_ms } = *a {
            assert!(5 <= delay_before_ms && delay_before_ms <= 500);
            assert_eq!(delay_after_ms, 0);
            delays.push(delay_before_ms);
        }
    }
    assert!(delays.iter().any(|d| *d != delays[0]));
}

#[test]
fn reversed_jitter_bounds_still_bound_the_draw() {
    let mut c = config(ClickPattern::Jitter, Mode::Repeat, 100);
    c.jitter_min_ms = 90;
    c.jitter_max_ms = 30;
    for a in drive_uninterrupted(c, 1000) {
        if let WorkerAction::Iterate { delay_before_ms, .. } = a {
            assert!(30 <= delay_before_ms && delay_before_ms <= 90);
        }
    }
}

#[test]
fn until_stopped_clicks_until_flag_is_cleared() {
    let mut w = Worker::new(config(ClickPattern::Constant, Mode::UntilStopped, 0), 1);
    assert_eq!(w.step(WorkerEvent::Acquired { ok: true }), WorkerAction::ReadRunning);
    for _ in 0..50 {
        assert_eq!(
            w.step(WorkerEvent::Observed { running: true }),
            WorkerAction::Iterate { delay_before_ms: 0, delay_after_ms: 100 }
        );
        assert_eq!(w.step(WorkerEvent::Proceed), WorkerAction::ReadRunning);
    }
    assert_eq!(
        w.step(WorkerEvent::Observed { running: false }),
        WorkerAction::Finish { clear_running: false }
    );
    assert_eq!(
        w.step(WorkerEvent::Observed { running: true }),
        WorkerAction::Finish { clear_running: false }
    );
    assert_eq!(w.phase, Phase::Done { clear_running: false });
}

#[test]
fn repeat_stopped_early_leaves_flag_alone() {
    let mut w = Worker::new(config(ClickPattern::Constant, Mode::Repeat, 10), 1);
    assert_eq!(w.step(WorkerEvent::Acquired { ok: true }), WorkerAction::ReadRunning);
    assert!(matches!(
        w.step(WorkerEvent::Observed { running: true }),
        WorkerAction::Iterate { .. }
    ));
    assert_eq!(w.step(WorkerEvent::Proceed), WorkerAction::ReadRunning);
    assert_eq!(
        w.step(WorkerEvent::Observed { running: false }),
        WorkerAction::Finish { clear_running: false }
    );
    assert_eq!(w.remaining, 9);
}

#[test]
fn start_delay_comes_before_acquiring() {
    let mut c = config(ClickPattern::Constant, Mode::Repeat, 1);
    c.start_delay_sec = 3;
    let mut w = Worker::new(c, 1);
    assert_eq!(w.pending(), WorkerAction::SleepSeconds { secs: 3 });
    assert_eq!(
        w.step(WorkerEvent::Observed { running: true }),
        WorkerAction::SleepSeconds { secs: 3 }
    );
    assert_eq!(w.step(WorkerEvent::Proceed), WorkerAction::AcquireCapability);
}

#[test]
fn capability_failure_ends_run_and_clears_flag() {
    let mut w = Worker::new(config(ClickPattern::Jitter, Mode::UntilStopped, 0), 1);
    assert_eq!(w.pending(), WorkerAction::AcquireCapability);
    assert_eq!(
        w.step(WorkerEvent::Acquired { ok: false }),
        WorkerAction::Finish { clear_running: true }
    );
    assert_eq!(w.phase, Phase::Done { clear_running: true });
}

#[test]
fn step_with_uses_the_given_draw() {
    let mut w = Worker::new(config(ClickPattern::Jitter, Mode::UntilStopped, 0), 1);
    w.step_with(WorkerEvent::Acquired { ok: true }, 0);
    assert_eq!(
        w.step_with(WorkerEvent::Observed { running: true }, 123),
        WorkerAction::Iterate { delay_before_ms: 123, delay_after_ms: 0 }
    );
}

#[test]
fn worker_keeps_its_run_number() {
    let w = Worker::new(config(ClickPattern::Constant, Mode::Repeat, 2), 42);
    assert_eq!(w.run, 42);
    assert_eq!(w.remaining, 2);
    assert_eq!(w.phase, Phase::Acquiring);
}
