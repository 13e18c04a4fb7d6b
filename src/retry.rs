//! A bounded retry: after a failed attempt a cleanup runs and the attempt is
//! made again, at most three times.
//!
//! The caller makes each attempt, reports whether it failed to
//! `Retry::after_attempt`, and runs the cleanup or returns the attempt's
//! result as the answer says.

use vstd::prelude::*;

verus! {

/// How many times a failed attempt is made again.
pub const MAX_RETRIES: u32 = 3;

/// What follows an attempt.
#[derive(Clone, Copy, Debug, PartialEq, Eq, Structural)]
pub enum RetryStep {
    /// Return the attempt's result.
    Finish,
    /// Run the cleanup, then attempt again.
    CleanUpAndRetry,
}

/// The attempts and cleanups of a retry so far.
pub struct Retry {
    /// Attempts made.
    pub attempts: u32,
    /// Cleanups asked for, one before each retry.
    pub cleanups: u32,
    /// Whether the last attempt's result is to be returned.
    pub finished: bool,
}

/// A `Retry` as mathematical values.
pub struct RetryView {
    pub attempts: nat,
    pub cleanups: nat,
    pub finished: bool,
}

impl View for Retry {
    type V = RetryView;

    open spec fn view(&self) -> RetryView {
        RetryView { attempts: self.attempts as nat, cleanups: self.cleanups as nat, finished: self.finished }
    }
}

/// A retry before its first attempt.
pub open spec fn retry_start() -> RetryView {
    RetryView { attempts: 0, cleanups: 0, finished: false }
}

/// The retry, and the step that follows, after an attempt that `failed` or
/// not: a failure is retried after a cleanup while retries are left.
pub open spec fn retry_after(m: RetryView, failed: bool) -> (RetryView, RetryStep) {
    if failed && m.cleanups < MAX_RETRIES {
        (RetryView { attempts: m.attempts + 1, cleanups: m.cleanups + 1, finished: false }, RetryStep::CleanUpAndRetry)
    } else {
        (RetryView { attempts: m.attempts + 1, cleanups: m.cleanups, finished: true }, RetryStep::Finish)
    }
}

impl Retry {
    /// Whether the counts are those of a retry that is still running: one
    /// attempt per cleanup so far, and retries left or just used up.
    pub open spec fn running(&self) -> bool {
        !self.finished && self.attempts == self.cleanups && self.cleanups <= MAX_RETRIES
    }

    /// A retry before its first attempt.
    pub fn new() -> (r: Retry)
        ensures
            r@ == retry_start(),
            r.running(),
    {
        Retry { attempts: 0, cleanups: 0, finished: false }
    }

    /// Records an attempt that `failed` or not, and says what follows.
    pub fn after_attempt(&mut self, failed: bool) -> (step: RetryStep)
        requires
            old(self).running(),
        ensures
            (final(self)@, step) == retry_after(old(self)@, failed),
            step == RetryStep::CleanUpAndRetry ==> final(self).running(),
    {
        self.attempts = self.attempts + 1;
        if failed && self.cleanups < MAX_RETRIES {
            self.cleanups = self.cleanups + 1;
            RetryStep::CleanUpAndRetry
        } else {
            self.finished = true;
            RetryStep::Finish
        }
    }
}

/// When every attempt fails, exactly four attempts are made, the cleanup
/// runs before each of the three retries, and then the last attempt's
/// result is returned.
pub proof fn lemma_retry_bound()
    ensures
        ({
            let (m1, s1) = retry_after(retry_start(), true);
            let (m2, s2) = retry_after(m1, true);
            let (m3, s3) = retry_after(m2, true);
            let (m4, s4) = retry_after(m3, true);
            &&& s1 == RetryStep::CleanUpAndRetry
            &&& s2 == RetryStep::CleanUpAndRetry
            &&& s3 == RetryStep::CleanUpAndRetry
            &&& s4 == RetryStep::Finish
            &&& m4 == RetryView { attempts: 4, cleanups: 3, finished: true }
        }),
{
}

/// An attempt that succeeds ends the retry at once, whatever came before.
pub proof fn lemma_retry_stops_on_success(m: RetryView)
    ensures
        retry_after(m, false).1 == RetryStep::Finish,
        retry_after(m, false).0.finished,
{
}

} // verus!
