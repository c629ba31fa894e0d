//! The focus-acquisition algorithm: a bounded retry loop with doubling,
//! capped backoff delays. The state machine here makes every decision; the
//! caller performs the toolkit requests and the sleeps between attempts and
//! reports each attempt's outcome back.

use vstd::prelude::*;

verus! {

/// The outcome of one focus-acquisition sequence for one surface at one
/// point in time; overwritten on every subsequent attempt.
#[derive(Debug, Clone, Copy, PartialEq, Eq, Structural)]
pub struct FocusResult {
    pub attempts: usize,
    pub success: bool,
}

/// What one focus attempt observed: the focus request itself failed, the
/// request went through but the surface did not report itself focused after
/// the delay, or it did.
#[derive(Debug, Clone, Copy, PartialEq, Eq, Structural)]
pub enum FocusAttemptOutcome {
    RequestFailed,
    NotFocused,
    FocusedAfterDelay,
}

/// The delay slept during the attempt made with this many attempts already
/// behind: 20 ms at first, doubling each retry, capped at 320 ms.
pub open spec fn spec_delay_after(attempts: nat) -> u64 {
    if attempts == 0 {
        20u64
    } else if attempts == 1 {
        40u64
    } else if attempts == 2 {
        80u64
    } else if attempts == 3 {
        160u64
    } else {
        320u64
    }
}

/// The retry state of one focus-acquisition sequence.
#[derive(Debug, Clone, Copy, PartialEq, Eq, Structural)]
pub struct FocusBackoff {
    pub attempts: usize,
    pub delay_ms: u64,
    pub success: bool,
}

impl FocusBackoff {
    pub open spec fn wf(self) -> bool {
        &&& self.attempts <= 5
        &&& (self.success ==> 1 <= self.attempts)
        &&& self.delay_ms == spec_delay_after(self.attempts as nat)
    }

    /// The sequence stops on the first focused report, or after five
    /// attempts.
    pub open spec fn spec_finished(self) -> bool {
        self.success || self.attempts == 5
    }

    pub fn new() -> (r: Self)
        ensures
            r.wf(),
            r.attempts == 0,
            r.success == false,
            !r.spec_finished(),
    {
        FocusBackoff { attempts: 0, delay_ms: 20, success: false }
    }

    pub fn is_finished(&self) -> (r: bool)
        ensures
            r == self.spec_finished(),
    {
        self.success || self.attempts == 5
    }

    /// The delay to sleep after the focus request of the coming attempt.
    pub fn current_delay_ms(&self) -> (r: u64)
        requires
            self.wf(),
            !self.spec_finished(),
        ensures
            r == spec_delay_after(self.attempts as nat),
            20 <= r <= 320,
    {
        self.delay_ms
    }

    /// Records the outcome of one attempt: the attempt counter moves up by
    /// one, the sequence succeeds exactly on a focused report, and the delay
    /// doubles, capped at 320 ms.
    pub fn step(&mut self, outcome: FocusAttemptOutcome)
        requires
            old(self).wf(),
            !old(self).spec_finished(),
        ensures
            final(self).wf(),
            final(self).attempts == old(self).attempts + 1,
            final(self).success == (outcome is FocusedAfterDelay),
            final(self).spec_finished() <==> (outcome is FocusedAfterDelay || old(self).attempts
                + 1 == 5),
    {
        self.attempts = self.attempts + 1;
        self.success = matches!(outcome, FocusAttemptOutcome::FocusedAfterDelay);
        self.delay_ms = if self.delay_ms * 2 < 320 {
            self.delay_ms * 2
        } else {
            320
        };
    }

    /// The outcome of a finished sequence. The attempt count of any finished
    /// sequence lies in [1, 5].
    pub fn result(&self) -> (r: FocusResult)
        requires
            self.wf(),
            self.spec_finished(),
        ensures
            r.attempts == self.attempts,
            r.success == self.success,
            1 <= r.attempts <= 5,
    {
        FocusResult { attempts: self.attempts, success: self.success }
    }
}

/// The single-shot focus path used where the toolkit provides reliable
/// focus in one request: one attempt, reporting its true result.
pub fn single_attempt_result(focused: bool) -> (r: FocusResult)
    ensures
        r.attempts == 1,
        r.success == focused,
{
    FocusResult { attempts: 1, success: focused }
}

} // verus!
