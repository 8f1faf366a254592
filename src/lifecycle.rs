//! The life of a runner: set up, optionally start the consumer, wait for it,
//! run timed loops, and tear down.
//!
//! The wait before the first loop is a fixed delay, not a readiness signal:
//! nothing proves that the consumer listens when the loop starts.
use vstd::prelude::*;

verus! {

/// The stages of a runner.
#[derive(Debug, Clone, Copy, PartialEq, Eq, Structural)]
pub enum RunnerState {
    Created,
    ChildSpawned,
    WarmedUp,
    Running,
    Completed,
    TornDown,
}

/// A runner's stage, whether it owns a consumer process, and the time of its
/// last completed loop.
pub struct Lifecycle {
    state: RunnerState,
    owns_child: bool,
    elapsed_nanos: u128,
}

impl Lifecycle {
    pub closed spec fn spec_state(&self) -> RunnerState {
        self.state
    }

    pub closed spec fn spec_owns_child(&self) -> bool {
        self.owns_child
    }

    pub closed spec fn spec_elapsed_nanos(&self) -> u128 {
        self.elapsed_nanos
    }

    /// A runner whose local buffers and channel are set up.
    pub fn new() -> (r: Lifecycle)
        ensures
            r.spec_state() == RunnerState::Created,
            !r.spec_owns_child(),
            r.spec_elapsed_nanos() == 0,
    {
        Lifecycle { state: RunnerState::Created, owns_child: false, elapsed_nanos: 0 }
    }

    /// The current stage.
    pub fn state(&self) -> (r: RunnerState)
        ensures
            r == self.spec_state(),
    {
        self.state
    }

    /// Whether the runner started a consumer that it must stop.
    pub fn owns_child(&self) -> (r: bool)
        ensures
            r == self.spec_owns_child(),
    {
        self.owns_child
    }

    /// The time of the last completed loop, in nanoseconds.
    pub fn elapsed_nanos(&self) -> (r: u128)
        ensures
            r == self.spec_elapsed_nanos(),
    {
        self.elapsed_nanos
    }

    /// Records that the consumer process was started.
    pub fn child_spawned(&mut self)
        requires
            old(self).spec_state() == RunnerState::Created,
        ensures
            final(self).spec_state() == RunnerState::ChildSpawned,
            final(self).spec_owns_child(),
            final(self).spec_elapsed_nanos() == old(self).spec_elapsed_nanos(),
    {
        self.state = RunnerState::ChildSpawned;
        self.owns_child = true;
    }

    /// Records that the warm-up delay passed.
    pub fn warmed_up(&mut self)
        requires
            old(self).spec_state() == RunnerState::Created || old(self).spec_state()
                == RunnerState::ChildSpawned,
        ensures
            final(self).spec_state() == RunnerState::WarmedUp,
            final(self).spec_owns_child() == old(self).spec_owns_child(),
            final(self).spec_elapsed_nanos() == old(self).spec_elapsed_nanos(),
    {
        self.state = RunnerState::WarmedUp;
    }

    /// Records that a timed loop starts; a runner may run several loops.
    pub fn start_run(&mut self)
        requires
            old(self).spec_state() == RunnerState::WarmedUp || old(self).spec_state()
                == RunnerState::Completed,
        ensures
            final(self).spec_state() == RunnerState::Running,
            final(self).spec_owns_child() == old(self).spec_owns_child(),
            final(self).spec_elapsed_nanos() == old(self).spec_elapsed_nanos(),
    {
        self.state = RunnerState::Running;
    }

    /// Records the time the loop took.
    pub fn finish_run(&mut self, elapsed_nanos: u128)
        requires
            old(self).spec_state() == RunnerState::Running,
        ensures
            final(self).spec_state() == RunnerState::Completed,
            final(self).spec_owns_child() == old(self).spec_owns_child(),
            final(self).spec_elapsed_nanos() == elapsed_nanos,
    {
        self.state = RunnerState::Completed;
        self.elapsed_nanos = elapsed_nanos;
    }

    /// Tears the runner down, from any stage but a finished teardown, and says
    /// whether a consumer process must be stopped. Teardown happens once:
    /// after it no process is owned.
    pub fn tear_down(&mut self) -> (r: bool)
        requires
            old(self).spec_state() != RunnerState::TornDown,
        ensures
            r == old(self).spec_owns_child(),
            final(self).spec_state() == RunnerState::TornDown,
            !final(self).spec_owns_child(),
            final(self).spec_elapsed_nanos() == old(self).spec_elapsed_nanos(),
    {
        let owned = self.owns_child;
        self.state = RunnerState::TornDown;
        self.owns_child = false;
        owned
    }
}

} // verus!
