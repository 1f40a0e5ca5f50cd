//! Test decorator trait and implementations.
//!
//! A [test decorator](DecorateTest) takes a [tested function](TestFn) and
//! invokes it zero or more times, possibly with additional logic spliced
//! between invocations. The reference decorators are [retries](Retry),
//! [`Timeout`]s and test [`Sequence`]s; [`Trace`] carries the configuration
//! of a tracing decorator.
//!
//! Decorators are composable: `DecorateTest` is implemented for tuples with
//! 1 to 8 elements whose elements all implement `DecorateTest`. The
//! decorators in a tuple are applied in the order of their appearance: the
//! first-listed decorator is the outermost one, and the last-listed one
//! invokes the tested function directly.
//!
//! A tested function reports one invocation as a [`TestOutcome`]: a clean
//! pass, a typed error, or an abnormal termination (panic) reduced to its
//! payload text by the supervising boundary that produced the outcome.

use vstd::prelude::*;

mod clock;
mod retry;
mod sequence;
mod timeout;
mod trace;

pub use clock::pause_millis;
pub use retry::{
    lemma_retry_exhausts_failures, lemma_retry_respects_matcher, matcher_verdict, retry_continues,
    retry_run, Retry, RetryDecision, RetryErrors,
};
pub use sequence::Sequence;
pub use timeout::{spec_duration_label, spec_expiry_message, Timeout};
pub use trace::Trace;

verus! {

/// What one supervised invocation of a test body produced.
///
/// `Panicked` carries the text extracted from the panic payload (empty when
/// the payload was not string-like). A decorator that does not retry an
/// abnormal termination propagates the same `Panicked` value outward, so the
/// payload reaches the host runner unchanged.
#[derive(Debug)]
pub enum TestOutcome<E> {
    /// The test body returned cleanly.
    Passed,
    /// The test body returned a typed error.
    Failed(E),
    /// The test body terminated abnormally; the payload text is kept.
    Panicked(String),
}

impl<E> TestOutcome<E> {
    /// Whether this outcome is a clean pass.
    pub open spec fn is_passed(&self) -> bool {
        self matches TestOutcome::Passed
    }

    /// Whether this outcome is a typed error or an abnormal termination.
    pub open spec fn is_failure(&self) -> bool {
        !self.is_passed()
    }

    /// Tests whether the outcome is a clean pass.
    pub fn passed(&self) -> (r: bool)
        ensures
            r == self.is_passed(),
    {
        match self {
            TestOutcome::Passed => true,
            _ => false,
        }
    }

    /// Tests whether the outcome is a typed error or an abnormal
    /// termination. This is the classification a [`Sequence`] records in its
    /// shared failure flag after a run.
    pub fn failure(&self) -> (r: bool)
        ensures
            r == self.is_failure(),
    {
        !self.passed()
    }
}

/// Tested function: a repeatable, zero-argument unit of test work.
///
/// An implementation may keep interior state (a retried test sees the side
/// effects of earlier attempts), so nothing relates the outcomes of two
/// invocations; every decorator contract holds for whatever outcomes the
/// invocations produce.
pub trait TestFn<E> {
    /// Runs the test body once under a supervising boundary and reports
    /// what it produced.
    fn invoke(&self) -> TestOutcome<E>;
}

/// Test decorator.
///
/// An implementation decides how many times the tested function runs and
/// what becomes of the outcomes. Implementations outside this crate are
/// welcome; the reference ones are [`Timeout`], [`Retry`], [`RetryErrors`]
/// and [`Sequence`].
pub trait DecorateTest<E> {
    /// Decorates the provided test function and runs the test.
    fn decorate_and_test<F: TestFn<E>>(&self, test_fn: &F) -> TestOutcome<E>;
}

/// Object-safe facade over [`DecorateTest`].
///
/// A heterogeneous decorator chain composes into a tuple whose concrete type
/// a test driver cannot spell out; this facade lets the driver hold the
/// chain behind one `&dyn DecorateTestFn<E>` indirection.
pub trait DecorateTestFn<E> {
    /// Decorates the provided test function and runs the test,
    /// polymorphically.
    fn decorate_and_test_fn(&self, test_fn: &dyn TestFn<E>) -> TestOutcome<E>;
}

impl<E, T: DecorateTest<E>> DecorateTestFn<E> for T {
    fn decorate_and_test_fn(&self, test_fn: &dyn TestFn<E>) -> TestOutcome<E> {
        self.decorate_and_test(&test_fn)
    }
}

impl<'f, E> TestFn<E> for &'f dyn TestFn<E> {
    fn invoke(&self) -> TestOutcome<E> {
        (*self).invoke()
    }
}

impl<'d, E, T: DecorateTest<E>> DecorateTest<E> for &'d T {
    fn decorate_and_test<F: TestFn<E>>(&self, test_fn: &F) -> TestOutcome<E> {
        (*self).decorate_and_test(test_fn)
    }
}

/// One cell of a composed decorator chain: the tested function as seen by
/// the decorator one step further out. Invoking it runs `decorator` around
/// `inner`.
pub struct Decorated<'a, D, F> {
    /// The decorator this cell applies.
    pub decorator: &'a D,
    /// What the decorator runs: the rest of the chain, ending in the tested
    /// function itself.
    pub inner: &'a F,
}

impl<'a, E, D: DecorateTest<E>, F: TestFn<E>> TestFn<E> for Decorated<'a, D, F> {
    fn invoke(&self) -> TestOutcome<E> {
        self.decorator.decorate_and_test(self.inner)
    }
}

impl<E, A: DecorateTest<E>> DecorateTest<E> for (A,) {
    fn decorate_and_test<F: TestFn<E>>(&self, test_fn: &F) -> TestOutcome<E> {
        self.0.decorate_and_test(test_fn)
    }
}

impl<E, A: DecorateTest<E>, B: DecorateTest<E>> DecorateTest<E> for (A, B) {
    fn decorate_and_test<F: TestFn<E>>(&self, test_fn: &F) -> TestOutcome<E> {
        let inner = Decorated { decorator: &self.1, inner: test_fn };
        self.0.decorate_and_test(&inner)
    }
}

impl<E, A: DecorateTest<E>, B: DecorateTest<E>, C: DecorateTest<E>> DecorateTest<E> for (A, B, C) {
    fn decorate_and_test<F: TestFn<E>>(&self, test_fn: &F) -> TestOutcome<E> {
        let chain2 = Decorated { decorator: &self.2, inner: test_fn };
        let chain1 = Decorated { decorator: &self.1, inner: &chain2 };
        self.0.decorate_and_test(&chain1)
    }
}

impl<E, A: DecorateTest<E>, B: DecorateTest<E>, C: DecorateTest<E>, D: DecorateTest<E>> DecorateTest<
    E,
> for (A, B, C, D) {
    fn decorate_and_test<F: TestFn<E>>(&self, test_fn: &F) -> TestOutcome<E> {
        let chain3 = Decorated { decorator: &self.3, inner: test_fn };
        let chain2 = Decorated { decorator: &self.2, inner: &chain3 };
        let chain1 = Decorated { decorator: &self.1, inner: &chain2 };
        self.0.decorate_and_test(&chain1)
    }
}

impl<
    E,
    A: DecorateTest<E>,
    B: DecorateTest<E>,
    C: DecorateTest<E>,
    D: DecorateTest<E>,
    G: DecorateTest<E>,
> DecorateTest<E> for (A, B, C, D, G) {
    fn decorate_and_test<F: TestFn<E>>(&self, test_fn: &F) -> TestOutcome<E> {
        let chain4 = Decorated { decorator: &self.4, inner: test_fn };
        let chain3 = Decorated { decorator: &self.3, inner: &chain4 };
        let chain2 = Decorated { decorator: &self.2, inner: &chain3 };
        let chain1 = Decorated { decorator: &self.1, inner: &chain2 };
        self.0.decorate_and_test(&chain1)
    }
}

impl<
    E,
    A: DecorateTest<E>,
    B: DecorateTest<E>,
    C: DecorateTest<E>,
    D: DecorateTest<E>,
    G: DecorateTest<E>,
    H: DecorateTest<E>,
> DecorateTest<E> for (A, B, C, D, G, H) {
    fn decorate_and_test<F: TestFn<E>>(&self, test_fn: &F) -> TestOutcome<E> {
        let chain5 = Decorated { decorator: &self.5, inner: test_fn };
        let chain4 = Decorated { decorator: &self.4, inner: &chain5 };
        let chain3 = Decorated { decorator: &self.3, inner: &chain4 };
        let chain2 = Decorated { decorator: &self.2, inner: &chain3 };
        let chain1 = Decorated { decorator: &self.1, inner: &chain2 };
        self.0.decorate_and_test(&chain1)
    }
}

impl<
    E,
    A: DecorateTest<E>,
    B: DecorateTest<E>,
    C: DecorateTest<E>,
    D: DecorateTest<E>,
    G: DecorateTest<E>,
    H: DecorateTest<E>,
    I: DecorateTest<E>,
> DecorateTest<E> for (A, B, C, D, G, H, I) {
    fn decorate_and_test<F: TestFn<E>>(&self, test_fn: &F) -> TestOutcome<E> {
        let chain6 = Decorated { decorator: &self.6, inner: test_fn };
        let chain5 = Decorated { decorator: &self.5, inner: &chain6 };
        let chain4 = Decorated { decorator: &self.4, inner: &chain5 };
        let chain3 = Decorated { decorator: &self.3, inner: &chain4 };
        let chain2 = Decorated { decorator: &self.2, inner: &chain3 };
        let chain1 = Decorated { decorator: &self.1, inner: &chain2 };
        self.0.decorate_and_test(&chain1)
    }
}

impl<
    E,
    A: DecorateTest<E>,
    B: DecorateTest<E>,
    C: DecorateTest<E>,
    D: DecorateTest<E>,
    G: DecorateTest<E>,
    H: DecorateTest<E>,
    I: DecorateTest<E>,
    J: DecorateTest<E>,
> DecorateTest<E> for (A, B, C, D, G, H, I, J) {
    fn decorate_and_test<F: TestFn<E>>(&self, test_fn: &F) -> TestOutcome<E> {
        let chain7 = Decorated { decorator: &self.7, inner: test_fn };
        let chain6 = Decorated { decorator: &self.6, inner: &chain7 };
        let chain5 = Decorated { decorator: &self.5, inner: &chain6 };
        let chain4 = Decorated { decorator: &self.4, inner: &chain5 };
        let chain3 = Decorated { decorator: &self.3, inner: &chain4 };
        let chain2 = Decorated { decorator: &self.2, inner: &chain3 };
        let chain1 = Decorated { decorator: &self.1, inner: &chain2 };
        self.0.decorate_and_test(&chain1)
    }
}

} // verus!
