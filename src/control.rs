use vstd::prelude::*;

verus! {

/// Errors of the click controller.
#[derive(Clone, Copy, Debug, PartialEq, Eq, Structural)]
pub enum ClickError {
    /// A run is already active; it must be stopped first.
    AlreadyRunning,
    /// The input-injection capability could not be acquired; the worker ended
    /// its run and only the shared state shows it.
    CapabilityInitFailure,
}

/// The state shared by the controller and the active worker: whether a run is
/// wanted, the number of the latest run, and the handle of the worker that
/// carries it out. A worker holds the number of its own run and goes on only
/// while that run is the one wanted, so a worker of a stopped run can neither
/// click under a later run nor end it.
pub struct RunState<H> {
    pub running: bool,
    /// The number of the latest run started; 0 before the first.
    pub generation: u64,
    pub handle: Option<H>,
}

/// Whether the run numbered `run` is still wanted in `s`.
pub open spec fn wanted<H>(s: RunState<H>, run: u64) -> bool {
    s.running && s.generation == run
}

/// The outcome of a start request on `s`.
/// A start that succeeds yields the number of the new run, one past the
/// latest.
pub open spec fn start_outcome<H>(s: RunState<H>) -> (RunState<H>, Result<u64, ClickError>) {
    if s.running {
        (s, Err(ClickError::AlreadyRunning))
    } else {
        let run = (s.generation + 1) as u64;
        (RunState { running: true, generation: run, handle: s.handle }, Ok(run))
    }
}

/// The outcome of a stop request on `s`.
pub open spec fn stop_outcome<H>(s: RunState<H>) -> (RunState<H>, Result<(), ClickError>) {
    if s.running {
        (RunState { running: false, generation: s.generation, handle: None }, Ok(()))
    } else {
        (s, Ok(()))
    }
}

/// The state once the worker of an accepted start is recorded.
pub open spec fn attached<H>(s: RunState<H>, h: H) -> RunState<H> {
    RunState { running: s.running, generation: s.generation, handle: Some(h) }
}

/// The state once the worker of run `run` has ended with
/// `Finish { clear_running }`: only the worker of the wanted run clears the
/// flag.
pub open spec fn after_exit<H>(s: RunState<H>, run: u64, clear_running: bool) -> RunState<H> {
    if clear_running && wanted(s, run) {
        RunState { running: false, generation: s.generation, handle: s.handle }
    } else {
        s
    }
}

impl<H> RunState<H> {
    /// The state at process start: not running, no worker.
    pub fn new() -> (r: RunState<H>)
        ensures
            !r.running,
            r.generation == 0,
            r.handle is None,
    {
        RunState { running: false, generation: 0, handle: None }
    }

    /// Whether a run is active.
    pub fn is_running(&self) -> (r: bool)
        ensures
            r == self.running,
    {
        self.running
    }

    /// Whether the run numbered `run` is still wanted: what the worker of that
    /// run polls before each iteration.
    pub fn still_wanted(&self, run: u64) -> (r: bool)
        ensures
            r == wanted(*self, run),
    {
        self.running && self.generation == run
    }

    /// Claims the state for a new run. Fails with `AlreadyRunning`, changing
    /// nothing, when a run is active; otherwise marks the state running and
    /// returns the new run's number, greater than that of every earlier run.
    /// The caller then spawns exactly one worker for that run and records it
    /// with `attach_worker`.
    pub fn start(&mut self) -> (r: Result<u64, ClickError>)
        requires
            old(self).generation < u64::MAX,
        ensures
            (*final(self), r) == start_outcome(*old(self)),
            r == Err::<u64, ClickError>(ClickError::AlreadyRunning) <==> old(self).running,
            r is Ok <==> !old(self).running,
            r matches Ok(run) ==> run > old(self).generation && wanted(*final(self), run),
            final(self).running,
            final(self).generation >= old(self).generation,
    {
        if self.running {
            return Err(ClickError::AlreadyRunning);
        }
        self.running = true;
        self.generation = self.generation + 1;
        Ok(self.generation)
    }

    /// Records the worker spawned for the run just started.
    pub fn attach_worker(&mut self, h: H)
        ensures
            *final(self) == attached(*old(self), h),
    {
        self.handle = Some(h);
    }

    /// Cancels the active run, if any: marks the state not running and lets go
    /// of the worker's handle without waiting for it. Always succeeds.
    pub fn stop(&mut self) -> (r: Result<(), ClickError>)
        ensures
            (*final(self), r) == stop_outcome(*old(self)),
            r is Ok,
            !final(self).running,
    {
        if !self.running {
            return Ok(());
        }
        self.running = false;
        self.handle = None;
        Ok(())
    }

    /// Applies the `Finish { clear_running }` of the worker of run `run`: a
    /// run that ended on its own, or failed to acquire the capability, marks
    /// the state not running, unless it has been stopped and another run
    /// started since.
    pub fn worker_exited(&mut self, run: u64, clear_running: bool)
        ensures
            *final(self) == after_exit(*old(self), run, clear_running),
    {
        if clear_running && self.running && self.generation == run {
            self.running = false;
        }
    }
}

/// A start that follows an accepted start, with or without its worker
/// recorded and with no stop in between, is refused with `AlreadyRunning` and
/// leaves the state as the first start left it.
pub proof fn second_start_is_refused<H>(s: RunState<H>, h: H)
    requires
        s.generation < u64::MAX,
    ensures
        ({
            let (s1, _) = start_outcome(s);
            &&& start_outcome(s1) == (s1, Err::<u64, ClickError>(ClickError::AlreadyRunning))
            &&& start_outcome(attached(s1, h)) == (
                attached(s1, h),
                Err::<u64, ClickError>(ClickError::AlreadyRunning),
            )
        }),
{
}

/// A stop with no run active succeeds and changes nothing, so stopping twice
/// is the same as stopping once.
pub proof fn stop_is_idempotent<H>(s: RunState<H>)
    ensures
        !s.running ==> stop_outcome(s) == (s, Ok::<(), ClickError>(())),
        stop_outcome(stop_outcome(s).0) == (stop_outcome(s).0, Ok::<(), ClickError>(())),
{
}

/// Once stopped, a run is never wanted again, not even after another run has
/// started: its worker sees it is no longer wanted at its next poll, and its
/// exit leaves the new run untouched.
pub proof fn stopped_run_stays_stopped<H>(s: RunState<H>, run: u64)
    requires
        run <= s.generation,
        s.generation < u64::MAX,
    ensures
        ({
            let s1 = stop_outcome(s).0;
            let (s2, r) = start_outcome(s1);
            &&& !wanted(s1, run)
            &&& r is Ok
            &&& wanted(s2, r->Ok_0)
            &&& r->Ok_0 != run
            &&& !wanted(s2, run)
            &&& forall|clear: bool| #[trigger] after_exit(s2, run, clear) == s2
        }),
{
}

} // verus!
