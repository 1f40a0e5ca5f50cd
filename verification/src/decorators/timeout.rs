//! The timeout decorator.

use vstd::prelude::*;

use crate::decorators::clock::{clock_now, millis_since};
use crate::decorators::{DecorateTest, TestFn, TestOutcome};
use crate::text::{decimal_string, push_decimal, spec_decimal};

verus! {

/// [Test decorator](DecorateTest) that fails a wrapped test when it does not
/// complete within the configured number of milliseconds.
///
/// The decorator measures the invocation on the calling thread: the tested
/// function runs to completion, and its outcome is replaced by an expiry
/// report when the measured time exceeds the configured duration. A harness
/// that must also abandon a test that never returns can run the invocation
/// on a worker thread, wait for at most the configured duration, and apply
/// [`Timeout::resolve`] to whatever the bounded wait produced.
#[derive(Debug, Clone, Copy)]
pub struct Timeout(pub u64);

/// The rendering of a duration of `ms` milliseconds: whole seconds are
/// written as `"5s"`, everything else as `"1500ms"`.
pub open spec fn spec_duration_label(ms: nat) -> Seq<char> {
    if ms > 0 && ms % 1000 == 0 {
        spec_decimal(ms / 1000) + "s"@
    } else {
        spec_decimal(ms) + "ms"@
    }
}

/// The report a timeout expiry produces, naming the configured duration.
pub open spec fn spec_expiry_message(ms: nat) -> Seq<char> {
    "Timeout "@ + spec_duration_label(ms) + " expired for the test"@
}

impl Timeout {
    /// Defines a timeout with the specified number of seconds.
    pub fn secs(secs: u64) -> (r: Self)
        requires
            secs * 1000 <= u64::MAX,
        ensures
            r.0 == secs * 1000,
    {
        Timeout(secs * 1000)
    }

    /// Defines a timeout with the specified number of milliseconds.
    pub fn millis(millis: u64) -> (r: Self)
        ensures
            r.0 == millis,
    {
        Timeout(millis)
    }

    /// The label under which this timeout's duration is reported.
    pub fn duration_label(&self) -> (r: String)
        ensures
            r@ == spec_duration_label(self.0 as nat),
    {
        if self.0 > 0 && self.0 % 1000 == 0 {
            let mut out = decimal_string(self.0 / 1000);
            out.append("s");
            out
        } else {
            let mut out = decimal_string(self.0);
            out.append("ms");
            out
        }
    }

    /// The message reported when this timeout expires.
    pub fn expiry_message(&self) -> (r: String)
        ensures
            r@ == spec_expiry_message(self.0 as nat),
    {
        let mut out = String::new();
        out.append("Timeout ");
        if self.0 > 0 && self.0 % 1000 == 0 {
            push_decimal(&mut out, self.0 / 1000);
            out.append("s");
        } else {
            push_decimal(&mut out, self.0);
            out.append("ms");
        }
        out.append(" expired for the test");
        proof {
            assert(out@ =~= spec_expiry_message(self.0 as nat));
        }
        out
    }

    /// Decides what a timed invocation produced: the outcome itself when it
    /// arrived within the configured duration, and an abnormal termination
    /// naming the duration when it did not.
    pub fn resolve<E>(&self, elapsed_millis: u64, outcome: TestOutcome<E>) -> (r: TestOutcome<E>)
        ensures
            elapsed_millis <= self.0 ==> r == outcome,
            elapsed_millis > self.0 ==> (r matches TestOutcome::Panicked(m) && m@
                == spec_expiry_message(self.0 as nat)),
    {
        if elapsed_millis > self.0 {
            TestOutcome::Panicked(self.expiry_message())
        } else {
            outcome
        }
    }
}

impl<E> DecorateTest<E> for Timeout {
    fn decorate_and_test<F: TestFn<E>>(&self, test_fn: &F) -> TestOutcome<E> {
        let start = clock_now();
        let outcome = test_fn.invoke();
        let elapsed = millis_since(&start);
        self.resolve(elapsed, outcome)
    }
}

} // verus!
