use vstd::prelude::*;
use rand::Rng;
use crate::config::{Mode, Pacing, StartConfig, pacing, pacing_of};

verus! {

/// Where a worker stands in its run.
#[derive(Clone, Copy, Debug, PartialEq, Eq, Structural)]
pub enum Phase {
    /// Waiting out the start delay.
    Delaying,
    /// Waiting for the input-injection capability.
    Acquiring,
    /// Waiting to learn whether the run is still wanted.
    Polling,
    /// The run is over; `clear_running` says whether the worker itself must
    /// mark the shared state as not running.
    Done { clear_running: bool },
}

/// What the host reports back after carrying out an action.
#[derive(Clone, Copy, Debug, PartialEq, Eq, Structural)]
pub enum WorkerEvent {
    /// The requested sleep or iteration has been carried out.
    Proceed,
    /// The outcome of acquiring the input-injection capability.
    Acquired { ok: bool },
    /// Whether this worker's run is still wanted.
    Observed { running: bool },
}

/// What the host must do next on behalf of the worker.
#[derive(Clone, Copy, Debug, PartialEq, Eq, Structural)]
pub enum WorkerAction {
    /// Sleep this many seconds, then report `Proceed`.
    SleepSeconds { secs: u64 },
    /// Acquire the input-injection capability, then report `Acquired`.
    AcquireCapability,
    /// Ask the shared state, under its lock, whether this worker's run is
    /// still wanted, then report the answer as `Observed`.
    ReadRunning,
    /// Sleep `delay_before_ms`, perform one logical click, sleep
    /// `delay_after_ms`, then report `Proceed`.
    Iterate { delay_before_ms: u64, delay_after_ms: u64 },
    /// Stop the worker; if `clear_running`, first set the shared flag to false.
    Finish { clear_running: bool },
}

/// The click worker: a run's configuration and its progress.
#[derive(Clone, Copy, Debug, PartialEq, Eq, Structural)]
pub struct Worker {
    pub config: StartConfig,
    /// The number of the run this worker carries out.
    pub run: u64,
    pub phase: Phase,
    /// Iterations still owed in `Repeat` mode.
    pub remaining: u64,
}

/// The worker a run starts with.
pub open spec fn initial(c: StartConfig, run: u64) -> Worker {
    Worker {
        config: c,
        run,
        phase: if c.start_delay_sec > 0 { Phase::Delaying } else { Phase::Acquiring },
        remaining: c.repeat_count,
    }
}

/// The action that a worker in its phase waits to have carried out.
pub open spec fn pending_of(w: Worker) -> WorkerAction {
    match w.phase {
        Phase::Delaying => WorkerAction::SleepSeconds { secs: w.config.start_delay_sec },
        Phase::Acquiring => WorkerAction::AcquireCapability,
        Phase::Polling => WorkerAction::ReadRunning,
        Phase::Done { clear_running } => WorkerAction::Finish { clear_running },
    }
}

/// One click iteration: constant pacing clicks then waits the interval; jitter
/// pacing waits the drawn delay then clicks.
pub open spec fn iteration_of(c: StartConfig, drawn: u64) -> WorkerAction {
    match pacing_of(c) {
        Pacing::Fixed { interval_ms } => WorkerAction::Iterate {
            delay_before_ms: 0,
            delay_after_ms: interval_ms,
        },
        Pacing::Jitter { .. } => WorkerAction::Iterate { delay_before_ms: drawn, delay_after_ms: 0 },
    }
}

pub open spec fn with_phase(w: Worker, p: Phase) -> Worker {
    Worker { phase: p, ..w }
}

/// The transition taken on `e`; `drawn` is the jitter delay used if this
/// transition starts a jittered iteration. An event that the phase does not
/// wait for changes nothing and repeats the pending action.
pub open spec fn next(w: Worker, e: WorkerEvent, drawn: u64) -> (Worker, WorkerAction) {
    match (w.phase, e) {
        (Phase::Delaying, WorkerEvent::Proceed) => (
            with_phase(w, Phase::Acquiring),
            WorkerAction::AcquireCapability,
        ),
        (Phase::Acquiring, WorkerEvent::Acquired { ok }) => {
            if !ok || (w.config.mode == Mode::Repeat && w.remaining == 0) {
                (
                    with_phase(w, Phase::Done { clear_running: true }),
                    WorkerAction::Finish { clear_running: true },
                )
            } else {
                (with_phase(w, Phase::Polling), WorkerAction::ReadRunning)
            }
        },
        (Phase::Polling, WorkerEvent::Observed { running }) => {
            if !running {
                (
                    with_phase(w, Phase::Done { clear_running: false }),
                    WorkerAction::Finish { clear_running: false },
                )
            } else if w.config.mode == Mode::UntilStopped {
                (w, iteration_of(w.config, drawn))
            } else if w.remaining == 0 {
                (
                    with_phase(w, Phase::Done { clear_running: true }),
                    WorkerAction::Finish { clear_running: true },
                )
            } else {
                let left = (w.remaining - 1) as u64;
                let p = if left == 0 { Phase::Done { clear_running: true } } else { Phase::Polling };
                (Worker { phase: p, remaining: left, ..w }, iteration_of(w.config, drawn))
            }
        },
        _ => (w, pending_of(w)),
    }
}

/// Whether a transition on `e` from `w` starts a jittered iteration, the only
/// case in which it reads a drawn delay.
pub open spec fn draws_on(w: Worker, e: WorkerEvent) -> bool {
    &&& w.phase == Phase::Polling
    &&& e == (WorkerEvent::Observed { running: true })
    &&& pacing_of(w.config) is Jitter
    &&& (w.config.mode == Mode::UntilStopped || w.remaining > 0)
}

/// Relies on rand::thread_rng and Rng::gen_range over an inclusive range: the
/// value returned lies between both ends. gen_range panics on an empty range,
/// which the precondition rules out.
#[verifier::external_body]
fn draw_between(low: u64, high: u64) -> (r: u64)
    requires
        low <= high,
    ensures
        low <= r <= high,
{
    rand::thread_rng().gen_range(low..=high)
}

/// The host's answer to `a` in a run whose capability is acquired and that
/// nobody stops.
pub open spec fn answer_uninterrupted(a: WorkerAction) -> WorkerEvent {
    match a {
        WorkerAction::AcquireCapability => WorkerEvent::Acquired { ok: true },
        WorkerAction::ReadRunning => WorkerEvent::Observed { running: true },
        _ => WorkerEvent::Proceed,
    }
}

/// `fuel` steps of such a run from `w` with `a` pending, the jitter delay of
/// the step taken with `k` steps left being `draw(k)`: the last worker, the
/// last action, and how many click iterations were issued.
pub open spec fn run_uninterrupted(
    w: Worker,
    a: WorkerAction,
    fuel: nat,
    draw: spec_fn(nat) -> u64,
) -> (Worker, WorkerAction, nat)
    decreases fuel,
{
    if fuel == 0 {
        (w, a, 0)
    } else {
        let (w1, a1) = next(w, answer_uninterrupted(a), draw(fuel));
        let (wf, af, n) = run_uninterrupted(w1, a1, (fuel - 1) as nat, draw);
        (wf, af, n + if a1 is Iterate { 1nat } else { 0nat })
    }
}

/// Where a `Repeat` run ends: done, owing nothing, clearing the flag itself.
pub open spec fn repeat_end(c: StartConfig, run: u64) -> Worker {
    Worker { config: c, run, phase: Phase::Done { clear_running: true }, remaining: 0 }
}

/// The longest wait inside one iteration: the interval, or the largest
/// jitter delay.
pub open spec fn iteration_wait_bound(c: StartConfig) -> u64 {
    match pacing_of(c) {
        Pacing::Fixed { interval_ms } => interval_ms,
        Pacing::Jitter { max_ms, .. } => max_ms,
    }
}

proof fn lemma_done_stays(w: Worker, fuel: nat, draw: spec_fn(nat) -> u64)
    requires
        w.phase is Done,
    ensures
        run_uninterrupted(w, pending_of(w), fuel, draw) == (w, pending_of(w), 0nat),
    decreases fuel,
{
    if fuel > 0 {
        lemma_done_stays(w, (fuel - 1) as nat, draw);
    }
}

proof fn lemma_repeat_polling(w: Worker, fuel: nat, draw: spec_fn(nat) -> u64)
    requires
        w.config.mode == Mode::Repeat,
        w.phase == Phase::Polling,
        w.remaining >= 1,
        fuel >= 2 * w.remaining,
    ensures
        run_uninterrupted(w, WorkerAction::ReadRunning, fuel, draw) == (
            repeat_end(w.config, w.run),
            WorkerAction::Finish { clear_running: true },
            w.remaining as nat,
        ),
    decreases w.remaining,
{
    let (w1, a1) = next(w, WorkerEvent::Observed { running: true }, draw(fuel));
    let f1 = (fuel - 1) as nat;
    let (w2, a2) = next(w1, WorkerEvent::Proceed, draw(f1));
    let f2 = (fuel - 2) as nat;
    assert(a1 is Iterate);
    assert(run_uninterrupted(w, WorkerAction::ReadRunning, fuel, draw).2 == run_uninterrupted(
        w1,
        a1,
        f1,
        draw,
    ).2 + 1);
    assert(run_uninterrupted(w1, a1, f1, draw) == run_uninterrupted(w2, a2, f2, draw));
    if w.remaining == 1 {
        assert(w2 == repeat_end(w.config, w.run));
        lemma_done_stays(w2, f2, draw);
    } else {
        assert(w2 == Worker { remaining: (w.remaining - 1) as u64, ..w });
        lemma_repeat_polling(w2, f2, draw);
    }
}

/// A `Repeat` run of `n` iterations that nobody stops issues exactly `n`
/// click iterations, whatever the jitter draws, and then ends by clearing the
/// running flag itself; with `n == 0` it clears the flag without clicking.
pub proof fn repeat_clicks_exactly_n_times(
    c: StartConfig,
    run: u64,
    fuel: nat,
    draw: spec_fn(nat) -> u64,
)
    requires
        c.mode == Mode::Repeat,
        fuel >= 2 * c.repeat_count + 2,
    ensures
        run_uninterrupted(initial(c, run), pending_of(initial(c, run)), fuel, draw) == (
            repeat_end(c, run),
            WorkerAction::Finish { clear_running: true },
            c.repeat_count as nat,
        ),
{
    let w0 = initial(c, run);
    let (wa, aa, fa) = if c.start_delay_sec > 0 {
        let (w1, a1) = next(w0, WorkerEvent::Proceed, draw(fuel));
        assert(run_uninterrupted(w0, pending_of(w0), fuel, draw) == run_uninterrupted(
            w1,
            a1,
            (fuel - 1) as nat,
            draw,
        ));
        (w1, a1, (fuel - 1) as nat)
    } else {
        (w0, pending_of(w0), fuel)
    };
    assert(wa == with_phase(w0, Phase::Acquiring) && aa == WorkerAction::AcquireCapability);
    let (wb, ab) = next(wa, WorkerEvent::Acquired { ok: true }, draw(fa));
    let fb = (fa - 1) as nat;
    assert(run_uninterrupted(wa, aa, fa, draw) == run_uninterrupted(wb, ab, fb, draw));
    if c.repeat_count == 0 {
        assert(wb == repeat_end(c, run));
        lemma_done_stays(wb, fb, draw);
    } else {
        lemma_repeat_polling(wb, fb, draw);
    }
}

/// An `UntilStopped` run never ends on its own: while the flag stays set, each
/// two steps issue one more click iteration and return to polling.
pub proof fn until_stopped_keeps_clicking(w: Worker, k: nat, draw: spec_fn(nat) -> u64)
    requires
        w.config.mode == Mode::UntilStopped,
        w.phase == Phase::Polling,
    ensures
        run_uninterrupted(w, WorkerAction::ReadRunning, 2 * k, draw) == (
            w,
            WorkerAction::ReadRunning,
            k,
        ),
    decreases k,
{
    if k > 0 {
        let f1 = (2 * k - 1) as nat;
        let (w1, a1) = next(w, WorkerEvent::Observed { running: true }, draw(2 * k));
        assert(w1 == w && a1 is Iterate);
        assert(run_uninterrupted(w1, a1, f1, draw) == run_uninterrupted(
            w,
            WorkerAction::ReadRunning,
            (2 * (k - 1)) as nat,
            draw,
        ));
        until_stopped_keeps_clicking(w, (k - 1) as nat, draw);
    }
}

/// Once the cleared flag is observed the run is over: the worker finishes
/// without clearing the flag, and no event leads it to click again.
pub proof fn observed_stop_ends_run(w: Worker, d: u64, e: WorkerEvent, d2: u64)
    requires
        w.phase == Phase::Polling,
    ensures
        ({
            let (w1, a1) = next(w, WorkerEvent::Observed { running: false }, d);
            &&& w1 == with_phase(w, Phase::Done { clear_running: false })
            &&& a1 == (WorkerAction::Finish { clear_running: false })
            &&& next(w1, e, d2) == (w1, a1)
        }),
{
}

/// Each click iteration waits at most one interval, or one largest jitter
/// delay, so a stop is seen within one such wait of being requested.
pub proof fn iteration_wait_is_bounded(w: Worker, e: WorkerEvent, d: u64)
    requires
        draws_on(w, e) ==> pacing_of(w.config)->min_ms <= d <= pacing_of(w.config)->max_ms,
    ensures
        ({
            let a = next(w, e, d).1;
            a is Iterate ==> a->delay_before_ms + a->delay_after_ms <= iteration_wait_bound(
                w.config,
            )
        }),
{
}

impl Worker {
    /// A worker for run number `run` of `c`: it starts with the start delay
    /// when there is one, else with acquiring the capability.
    pub fn new(c: StartConfig, run: u64) -> (r: Worker)
        ensures
            r == initial(c, run),
    {
        Worker {
            config: c,
            run,
            phase: if c.start_delay_sec > 0 { Phase::Delaying } else { Phase::Acquiring },
            remaining: c.repeat_count,
        }
    }

    /// The action that this worker waits to have carried out.
    pub fn pending(&self) -> (r: WorkerAction)
        ensures
            r == pending_of(*self),
    {
        match self.phase {
            Phase::Delaying => WorkerAction::SleepSeconds { secs: self.config.start_delay_sec },
            Phase::Acquiring => WorkerAction::AcquireCapability,
            Phase::Polling => WorkerAction::ReadRunning,
            Phase::Done { clear_running } => WorkerAction::Finish { clear_running },
        }
    }

    fn iteration(&self, drawn: u64) -> (r: WorkerAction)
        ensures
            r == iteration_of(self.config, drawn),
    {
        match pacing(&self.config) {
            Pacing::Fixed { interval_ms } => WorkerAction::Iterate {
                delay_before_ms: 0,
                delay_after_ms: interval_ms,
            },
            Pacing::Jitter { .. } => WorkerAction::Iterate {
                delay_before_ms: drawn,
                delay_after_ms: 0,
            },
        }
    }

    /// Takes the transition on `e`, with `drawn` as the jitter delay should
    /// the transition start a jittered iteration.
    pub fn step_with(&mut self, e: WorkerEvent, drawn: u64) -> (r: WorkerAction)
        ensures
            (*final(self), r) == next(*old(self), e, drawn),
    {
        let w = *self;
        match (w.phase, e) {
            (Phase::Delaying, WorkerEvent::Proceed) => {
                self.phase = Phase::Acquiring;
                WorkerAction::AcquireCapability
            },
            (Phase::Acquiring, WorkerEvent::Acquired { ok }) => {
                if !ok || (w.config.mode == Mode::Repeat && w.remaining == 0) {
                    self.phase = Phase::Done { clear_running: true };
                    WorkerAction::Finish { clear_running: true }
                } else {
                    self.phase = Phase::Polling;
                    WorkerAction::ReadRunning
                }
            },
            (Phase::Polling, WorkerEvent::Observed { running }) => {
                if !running {
                    self.phase = Phase::Done { clear_running: false };
                    WorkerAction::Finish { clear_running: false }
                } else if w.config.mode == Mode::UntilStopped {
                    w.iteration(drawn)
                } else if w.remaining == 0 {
                    self.phase = Phase::Done { clear_running: true };
                    WorkerAction::Finish { clear_running: true }
                } else {
                    let left: u64 = w.remaining - 1;
                    self.remaining = left;
                    if left == 0 {
                        self.phase = Phase::Done { clear_running: true };
                    }
                    w.iteration(drawn)
                }
            },
            _ => w.pending(),
        }
    }

    /// Takes the transition on `e`, drawing the jitter delay at random from
    /// the effective jitter bounds when the transition starts a jittered
    /// iteration.
    pub fn step(&mut self, e: WorkerEvent) -> (r: WorkerAction)
        ensures
            exists|d: u64|
                {
                    &&& (*final(self), r) == next(*old(self), e, d)
                    &&& (draws_on(*old(self), e) ==> {
                        let b = pacing_of(old(self).config);
                        b->min_ms <= d <= b->max_ms
                    })
                },
    {
        let mut drawn: u64 = 0;
        if self.phase == Phase::Polling && e == (WorkerEvent::Observed { running: true }) && (
        self.config.mode == Mode::UntilStopped || self.remaining > 0) {
            if let Pacing::Jitter { min_ms, max_ms } = pacing(&self.config) {
                drawn = draw_between(min_ms, max_ms);
            }
        }
        self.step_with(e, drawn)
    }
}

} // verus!
