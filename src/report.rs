//! Turning a measured time into a throughput.
use vstd::prelude::*;

verus! {

/// Nanoseconds in one second.
pub const NANOS_PER_SEC: u128 = 1_000_000_000;

/// Round trips per second, rounded down, for `cycles` round trips in
/// `elapsed_nanos` nanoseconds.
pub open spec fn throughput_of(cycles: nat, elapsed_nanos: nat) -> nat
    recommends
        elapsed_nanos > 0,
{
    (cycles * NANOS_PER_SEC as nat) / elapsed_nanos
}

/// What one run measured: a label, the time the timed loop took and the
/// number of round trips in it.
pub struct ExecutionResult {
    pub name: String,
    pub elapsed_nanos: u128,
    pub cycles: usize,
}

impl ExecutionResult {
    pub fn new(name: String, elapsed_nanos: u128, cycles: usize) -> (r: ExecutionResult)
        ensures
            r.name@ == name@,
            r.elapsed_nanos == elapsed_nanos,
            r.cycles == cycles,
    {
        ExecutionResult { name, elapsed_nanos, cycles }
    }

    /// Round trips per second, rounded down; `None` where no time was measured.
    pub fn throughput(&self) -> (r: Option<u128>)
        ensures
            self.elapsed_nanos == 0 ==> r is None,
            self.elapsed_nanos > 0 ==> r == Some(
                throughput_of(self.cycles as nat, self.elapsed_nanos as nat) as u128,
            ),
    {
        if self.elapsed_nanos == 0 {
            return None;
        }
        let cycles = self.cycles as u128;
        assert(cycles * NANOS_PER_SEC <= u128::MAX) by (nonlinear_arith)
            requires
                cycles <= u64::MAX,
        ;
        let scaled = cycles * NANOS_PER_SEC;
        Some(scaled / self.elapsed_nanos)
    }
}

} // verus!
