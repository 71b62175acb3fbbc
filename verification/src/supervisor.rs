//! The resilience supervisor: a state machine over the connect-subscribe-
//! process cycle. It runs one cycle at a time, backs off linearly after a
//! failed cycle, and gives up after a bounded number of attempts; a
//! stream that ends cleanly is the sole non-error termination.

use vstd::prelude::*;

verus! {

/// Why one connect-subscribe-process cycle ended with an error. Every
/// kind is handled uniformly: the supervisor backs off and reconnects.
#[derive(Clone, Copy, Debug, PartialEq, Eq, Structural)]
pub enum CycleError {
    Connection,
    Submission,
    ConfirmationTimeout,
}

/// Where the supervisor stands.
#[derive(Clone, Copy, Debug, PartialEq, Eq, Structural)]
pub enum Phase {
    /// A cycle is active and processing events.
    Running,
    /// The last cycle failed; the next one starts after a delay.
    Backoff,
    /// The stream ended cleanly: terminal success.
    Succeeded,
    /// The attempt bound was reached: terminal failure.
    Failed,
}

pub const DEFAULT_MAX_ATTEMPTS: u64 = 10;

pub const DEFAULT_BASE_DELAY_SECS: u64 = 2;

/// Attempt bookkeeping: the number of the cycle under way (or just
/// failed), the bound on attempts, and the fixed base delay.
#[derive(Debug)]
pub struct Supervisor {
    pub attempt: u64,
    pub max_attempts: u64,
    pub base_delay_secs: u64,
    pub phase: Phase,
}

impl Supervisor {
    /// The attempt counter stays within its bound; the bounds are small
    /// enough that every backoff delay fits in a `u64`.
    pub open spec fn wf(self) -> bool {
        &&& 1 <= self.attempt <= self.max_attempts
        &&& self.max_attempts <= 0xffff_ffffu64
        &&& self.base_delay_secs <= 0xffff_ffffu64
    }

    /// Starts on the first attempt, running.
    pub fn new(max_attempts: u64, base_delay_secs: u64) -> (s: Supervisor)
        requires
            1 <= max_attempts <= 0xffff_ffffu64,
            base_delay_secs <= 0xffff_ffffu64,
        ensures
            s.wf(),
            s.attempt == 1,
            s.max_attempts == max_attempts,
            s.base_delay_secs == base_delay_secs,
            s.phase == Phase::Running,
    {
        Supervisor { attempt: 1, max_attempts, base_delay_secs, phase: Phase::Running }
    }

    /// The standard bound of ten attempts with a two-second base delay.
    pub fn standard() -> (s: Supervisor)
        ensures
            s.wf(),
            s.attempt == 1,
            s.max_attempts == DEFAULT_MAX_ATTEMPTS,
            s.base_delay_secs == DEFAULT_BASE_DELAY_SECS,
            s.phase == Phase::Running,
    {
        Self::new(DEFAULT_MAX_ATTEMPTS, DEFAULT_BASE_DELAY_SECS)
    }

    /// Clean close of the stream: the sole non-error termination. The
    /// run ends in success, never in a retry cycle.
    pub fn on_clean_close(&mut self)
        requires
            old(self).wf(),
            old(self).phase == Phase::Running,
        ensures
            final(self).wf(),
            final(self).phase == Phase::Succeeded,
            final(self).attempt == old(self).attempt,
            final(self).max_attempts == old(self).max_attempts,
            final(self).base_delay_secs == old(self).base_delay_secs,
    {
        self.phase = Phase::Succeeded;
    }

    /// A cycle failed. Below the attempt bound the supervisor backs off
    /// and returns the delay to sleep before the next cycle: the number
    /// of the failed attempt times the base delay, growing linearly. At
    /// the bound the failure is terminal and no delay is returned.
    pub fn on_cycle_error(&mut self, error: CycleError) -> (delay: Option<u64>)
        requires
            old(self).wf(),
            old(self).phase == Phase::Running,
        ensures
            final(self).wf(),
            final(self).attempt == old(self).attempt,
            final(self).max_attempts == old(self).max_attempts,
            final(self).base_delay_secs == old(self).base_delay_secs,
            old(self).attempt < old(self).max_attempts ==> final(self).phase == Phase::Backoff
                && (delay matches Some(d) && d == old(self).attempt * old(self).base_delay_secs),
            old(self).attempt == old(self).max_attempts ==> final(self).phase == Phase::Failed
                && delay is None,
    {
        let _ = error;
        if self.attempt < self.max_attempts {
            self.phase = Phase::Backoff;
            proof {
                assert(self.attempt * self.base_delay_secs <= 0xffff_ffffu64 * 0xffff_ffffu64)
                    by (nonlinear_arith)
                    requires
                        self.attempt <= 0xffff_ffffu64,
                        self.base_delay_secs <= 0xffff_ffffu64,
                ;
            }
            Some(self.attempt * self.base_delay_secs)
        } else {
            self.phase = Phase::Failed;
            None
        }
    }

    /// The backoff delay elapsed; the next cycle begins, counted.
    pub fn on_backoff_elapsed(&mut self)
        requires
            old(self).wf(),
            old(self).phase == Phase::Backoff,
            old(self).attempt < old(self).max_attempts,
        ensures
            final(self).wf(),
            final(self).phase == Phase::Running,
            final(self).attempt == old(self).attempt + 1,
            final(self).max_attempts == old(self).max_attempts,
            final(self).base_delay_secs == old(self).base_delay_secs,
    {
        self.attempt = self.attempt + 1;
        self.phase = Phase::Running;
    }

    /// Process exit status once terminal: success exactly where the
    /// stream closed cleanly.
    pub fn is_success(&self) -> (r: bool)
        ensures
            r == (self.phase == Phase::Succeeded),
    {
        self.phase == Phase::Succeeded
    }
}

/// Bounded retry: in every reachable supervisor state the attempt
/// counter is at most the attempt bound, so attempts beyond the bound
/// never occur; the failure at the bound is terminal.
pub proof fn lemma_attempts_bounded(s: Supervisor)
    requires
        s.wf(),
    ensures
        s.attempt <= s.max_attempts,
{
}

} // verus!
