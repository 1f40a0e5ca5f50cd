//! The mutual-exclusion sequence decorator.

use vstd::prelude::*;
use vstd::rwlock::{RwLock, RwLockPredicate};

use crate::decorators::{DecorateTest, TestFn, TestOutcome};

verus! {

/// The lock invariant of a [`Sequence`]'s failure flag: any boolean is a
/// valid flag value.
pub struct AnyFlag;

impl RwLockPredicate<bool> for AnyFlag {
    open spec fn inv(self, v: bool) -> bool {
        true
    }
}

/// [Test decorator](DecorateTest) that makes runs of decorated tests
/// sequential: the decorator holds its internal lock for the whole duration
/// of an invocation, so the bodies of two tests sharing one `Sequence`
/// instance never overlap in time. The relative order in which they run is
/// whatever order their threads reach the lock.
///
/// The lock guards a failure flag, rewritten after every run with that run's
/// classification (pass clears it, a typed error or an abnormal termination
/// sets it). With [`Sequence::abort_on_failure`] configured, a run that
/// finds the flag set skips the test body entirely and reports a synthetic
/// pass — by design, so that one failure does not cascade into noise from
/// every later test in the sequence.
pub struct Sequence {
    failed: RwLock<bool, AnyFlag>,
    abort_on_failure: bool,
}

impl Sequence {
    /// Whether this sequence aborts the remaining runs after a failure.
    pub closed spec fn aborts_on_failure(self) -> bool {
        self.abort_on_failure
    }

    /// Creates a new test sequence.
    pub fn new() -> (s: Self)
        ensures
            !s.aborts_on_failure(),
    {
        Sequence { failed: RwLock::new(false, Ghost(AnyFlag)), abort_on_failure: false }
    }

    /// Makes the decorated tests abort immediately when one test from the
    /// sequence has failed.
    pub fn abort_on_failure(self) -> (s: Self)
        ensures
            s.aborts_on_failure(),
    {
        Sequence { abort_on_failure: true, ..self }
    }

    /// Whether a run that reads `prior_failed` from the flag skips the test
    /// body: only when a previous run failed and the sequence is configured
    /// to abort on failure.
    pub fn skips_run(&self, prior_failed: bool) -> (r: bool)
        ensures
            r == (prior_failed && self.aborts_on_failure()),
    {
        prior_failed && self.abort_on_failure
    }

    /// Runs one test under the sequence's lock.
    ///
    /// The lock is held from before the prior-failure check until after the
    /// new flag value is written, so the invocation itself happens inside
    /// the critical section. When [`Self::skips_run`] holds of the flag that
    /// was read, the test body is not invoked, the flag is left set, and a
    /// synthetic pass is reported; otherwise the result is the invocation's
    /// outcome, unchanged, and the flag is rewritten with
    /// [`TestOutcome::failure`] of that outcome.
    pub fn run_in_sequence<E, F: TestFn<E>>(&self, test_fn: &F) -> TestOutcome<E> {
        let (prior_failed, handle) = self.failed.acquire_write();
        if self.skips_run(prior_failed) {
            handle.release_write(prior_failed);
            return TestOutcome::Passed;
        }
        let outcome = test_fn.invoke();
        let now_failed = outcome.failure();
        handle.release_write(now_failed);
        outcome
    }
}

impl<E> DecorateTest<E> for Sequence {
    fn decorate_and_test<F: TestFn<E>>(&self, test_fn: &F) -> TestOutcome<E> {
        self.run_in_sequence(test_fn)
    }
}

} // verus!
