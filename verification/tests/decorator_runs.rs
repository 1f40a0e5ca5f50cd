//! Tests for the decorator engine: retries, timeouts, sequences and
//! composition.

use std::cell::Cell;
use std::io;
use std::time::{Duration, Instant};

use test_casing::decorators::pause_millis;
use test_casing::{
    DecorateTest, DecorateTestFn, Retry, RetryDecision, Sequence, TestFn, TestOutcome, Timeout,
};

/// A test body driven by a script of outcomes, one per invocation.
struct ScriptedTest<E: Clone> {
    script: Vec<TestOutcome<E>>,
    counter: Cell<usize>,
}

impl<E: Clone> ScriptedTest<E> {
    fn new(script: Vec<TestOutcome<E>>) -> Self {
        ScriptedTest { script, counter: Cell::new(0) }
    }

    fn invocations(&self) -> usize {
        self.counter.get()
    }
}

impl<E: Clone> TestFn<E> for ScriptedTest<E> {
    fn invoke(&self) -> TestOutcome<E> {
        let n = self.counter.get();
        self.counter.set(n + 1);
        match &self.script[n] {
            TestOutcome::Passed => TestOutcome::Passed,
            TestOutcome::Failed(e) => TestOutcome::Failed(e.clone()),
            TestOutcome::Panicked(m) => TestOutcome::Panicked(m.clone()),
        }
    }
}

#[test]
fn with_retries() {
    // Fails abnormally once, then succeeds; one retry suffices.
    let test = ScriptedTest::<()>::new(vec![
        TestOutcome::Panicked("Sometimes we all fail".to_string()),
        TestOutcome::Passed,
    ]);
    let outcome = Retry::times(1).decorate_and_test(&test);
    assert!(matches!(outcome, TestOutcome::Passed));
    assert_eq!(test.invocations(), 2);
}

#[test]
fn with_retries_and_error() {
    let test = ScriptedTest::<String>::new(vec![
        TestOutcome::Failed("Sometimes we all fail".to_string()),
        TestOutcome::Passed,
    ]);
    let outcome = Retry::times(1).decorate_and_test(&test);
    assert!(matches!(outcome, TestOutcome::Passed));
    assert_eq!(test.invocations(), 2);
}

#[test]
fn with_error_retries() {
    let retry_errors = Retry::times(1).on_error(|err: &String| err.contains("retry"));
    let test = ScriptedTest::<String>::new(vec![
        TestOutcome::Failed("please retry me".to_string()),
        TestOutcome::Passed,
    ]);
    let outcome = retry_errors.decorate_and_test(&test);
    assert!(matches!(outcome, TestOutcome::Passed));
    assert_eq!(test.invocations(), 2);
}

fn addr_in_use_error() -> io::Error {
    io::Error::new(io::ErrorKind::AddrInUse, "please retry later")
}

/// A test body that fails with a retryable error except on one invocation.
struct RetriedIoTest {
    passing_invocation: u32,
    counter: Cell<u32>,
}

impl TestFn<io::Error> for RetriedIoTest {
    fn invoke(&self) -> TestOutcome<io::Error> {
        let n = self.counter.get();
        self.counter.set(n + 1);
        if n == self.passing_invocation {
            TestOutcome::Passed
        } else {
            TestOutcome::Failed(addr_in_use_error())
        }
    }
}

#[test]
fn retrying_on_error() {
    let retry = Retry::times(2).on_error(|err: &io::Error| {
        matches!(err.kind(), io::ErrorKind::AddrInUse)
    });
    let test = RetriedIoTest { passing_invocation: 2, counter: Cell::new(0) };

    let outcome = retry.decorate_and_test(&test);
    assert!(matches!(outcome, TestOutcome::Passed));
    assert_eq!(test.counter.get(), 3);

    // The next run starts over: three more attempts, all failing, and the
    // final error is reported unchanged.
    let outcome = retry.decorate_and_test(&test);
    match outcome {
        TestOutcome::Failed(err) => assert!(err.to_string().contains("please retry later")),
        _ => panic!("expected the final error"),
    }
    assert_eq!(test.counter.get(), 6);
}

/// A test body whose first invocation fails with a non-retryable error.
struct BrokenPipeTest {
    counter: Cell<u32>,
}

impl TestFn<io::Error> for BrokenPipeTest {
    fn invoke(&self) -> TestOutcome<io::Error> {
        let n = self.counter.get();
        self.counter.set(n + 1);
        if n == 0 {
            TestOutcome::Failed(io::Error::new(io::ErrorKind::BrokenPipe, "oops"))
        } else {
            TestOutcome::Passed
        }
    }
}

#[test]
fn retrying_on_error_failure() {
    let retry = Retry::times(2).on_error(|err: &io::Error| {
        matches!(err.kind(), io::ErrorKind::AddrInUse)
    });
    let test = BrokenPipeTest { counter: Cell::new(0) };
    let outcome = retry.decorate_and_test(&test);
    match outcome {
        TestOutcome::Failed(err) => assert!(err.to_string().contains("oops")),
        _ => panic!("expected the mismatched error to be final"),
    }
    assert_eq!(test.counter.get(), 1);
}

/// A test body that errors on its first invocation and then checks that the
/// second invocation started only after the configured delay.
struct DelayProbe {
    delay: Duration,
    first_completed: Cell<Option<Instant>>,
}

impl TestFn<&'static str> for DelayProbe {
    fn invoke(&self) -> TestOutcome<&'static str> {
        if let Some(first_completed) = self.first_completed.get() {
            assert!(first_completed.elapsed() >= self.delay);
            TestOutcome::Passed
        } else {
            self.first_completed.set(Some(Instant::now()));
            TestOutcome::Failed("come again?")
        }
    }
}

#[test]
fn retrying_with_delay() {
    let retry = Retry::times(1).with_delay(100);
    let test = DelayProbe { delay: Duration::from_millis(100), first_completed: Cell::new(None) };
    let outcome = retry.decorate_and_test(&test);
    assert!(matches!(outcome, TestOutcome::Passed));
}

#[test]
fn retry_decision_carries_configured_delay() {
    let retry = Retry::times(1).with_delay(250);
    let decision = retry.evaluate::<&'static str>(0, TestOutcome::Failed("flaky"), true);
    assert!(matches!(decision, RetryDecision::RetryAfter(250)));

    // The last allowed attempt finishes regardless of the verdict.
    let decision = retry.evaluate::<&'static str>(1, TestOutcome::Failed("flaky"), true);
    assert!(matches!(decision, RetryDecision::Finish(TestOutcome::Failed("flaky"))));

    // A rejected error finishes even though retries remain.
    let decision = retry.evaluate::<&'static str>(0, TestOutcome::Failed("fatal"), false);
    assert!(matches!(decision, RetryDecision::Finish(TestOutcome::Failed("fatal"))));

    // A pass finishes at once.
    let decision = retry.evaluate::<&'static str>(0, TestOutcome::Passed, true);
    assert!(matches!(decision, RetryDecision::Finish(TestOutcome::Passed)));
}

#[test]
fn timeouts() {
    let timeout = Timeout(100);

    let test = SleepyTest { sleep_ms: 1000, outcome_after: Cell::new(0) };
    let outcome = timeout.decorate_and_test(&test);
    match outcome {
        TestOutcome::Panicked(message) => {
            assert!(message.contains("100ms"));
            assert!(message.contains("expired"));
            assert_eq!(message, "Timeout 100ms expired for the test");
        },
        _ => panic!("expected the timeout to expire"),
    }
}

/// A test body that busy-waits before passing; later invocations are
/// instantaneous.
struct SleepyTest {
    sleep_ms: u64,
    outcome_after: Cell<u32>,
}

impl TestFn<()> for SleepyTest {
    fn invoke(&self) -> TestOutcome<()> {
        let n = self.outcome_after.get();
        self.outcome_after.set(n + 1);
        if n == 0 {
            pause_millis(self.sleep_ms);
        }
        TestOutcome::Passed
    }
}

#[test]
fn timeout_returns_fast_outcome_unchanged() {
    // A test completing in around 10ms under a 5s timeout reports its own
    // outcome.
    let test = SleepyTest { sleep_ms: 10, outcome_after: Cell::new(0) };
    let outcome = Timeout::secs(5).decorate_and_test(&test);
    assert!(matches!(outcome, TestOutcome::Passed));
}

#[test]
fn timeout_reports_render_durations() {
    assert_eq!(Timeout::secs(5).expiry_message(), "Timeout 5s expired for the test");
    assert_eq!(Timeout::millis(1500).expiry_message(), "Timeout 1500ms expired for the test");
    assert_eq!(Timeout(0).expiry_message(), "Timeout 0ms expired for the test");
    assert_eq!(Timeout::millis(60000).duration_label(), "60s");
}

#[test]
fn timeout_resolution_preserves_panics_within_time() {
    // An abnormal termination that arrives in time is re-raised unchanged,
    // with its original payload.
    let timeout = Timeout::millis(500);
    let outcome = timeout.resolve::<()>(10, TestOutcome::Panicked("original payload".to_string()));
    match outcome {
        TestOutcome::Panicked(message) => assert_eq!(message, "original payload"),
        _ => panic!("expected the original abnormal termination"),
    }
}

/// The three-outcome script shared by the composition tests: slow pass,
/// error, pass.
fn slow_then_flaky() -> ScriptedAndSlowTest {
    ScriptedAndSlowTest { counter: Cell::new(0) }
}

struct ScriptedAndSlowTest {
    counter: Cell<u32>,
}

impl TestFn<&'static str> for ScriptedAndSlowTest {
    fn invoke(&self) -> TestOutcome<&'static str> {
        let n = self.counter.get();
        self.counter.set(n + 1);
        match n {
            0 => {
                pause_millis(1000);
                TestOutcome::Passed
            },
            1 => TestOutcome::Failed("oops"),
            _ => TestOutcome::Passed,
        }
    }
}

#[test]
fn composing_decorators() {
    // The retry wraps the timeout: the first attempt exceeds 100ms and is
    // reported as expired, the second errors, and the third passes.
    let decorators = (Retry::times(2), Timeout(100));
    let test = slow_then_flaky();
    let outcome = decorators.decorate_and_test(&test);
    assert!(matches!(outcome, TestOutcome::Passed));
    assert_eq!(test.counter.get(), 3);
}

#[test]
fn making_decorator_into_trait_object() {
    let decorators: &dyn DecorateTestFn<&'static str> = &(Retry::times(2), Timeout(100));
    let test = slow_then_flaky();
    let outcome = decorators.decorate_and_test_fn(&test);
    assert!(matches!(outcome, TestOutcome::Passed));
    assert_eq!(test.counter.get(), 3);
}

struct PassingTest;

impl TestFn<()> for PassingTest {
    fn invoke(&self) -> TestOutcome<()> {
        TestOutcome::Passed
    }
}

#[test]
fn making_sequence_into_trait_object() {
    let sequence = Sequence::new();
    let chain = (&sequence,);
    let decorators: &dyn DecorateTestFn<()> = &chain;
    let outcome = decorators.decorate_and_test_fn(&PassingTest);
    assert!(matches!(outcome, TestOutcome::Passed));
}

struct FailingIoTest;

impl TestFn<io::Error> for FailingIoTest {
    fn invoke(&self) -> TestOutcome<io::Error> {
        TestOutcome::Failed(io::Error::new(io::ErrorKind::AddrInUse, "please try later"))
    }
}

struct UnreachableTest;

impl TestFn<io::Error> for UnreachableTest {
    fn invoke(&self) -> TestOutcome<io::Error> {
        unreachable!("Second test should not be called!");
    }
}

#[test]
fn sequential_tests_with_abort() {
    let sequence = Sequence::new().abort_on_failure();

    let outcome = sequence.decorate_and_test(&FailingIoTest);
    assert!(matches!(outcome, TestOutcome::Failed(_)));

    // The second run is skipped entirely and reported as a synthetic pass.
    let outcome = sequence.decorate_and_test(&UnreachableTest);
    assert!(matches!(outcome, TestOutcome::Passed));
}

#[test]
fn sequence_without_abort_keeps_running() {
    let sequence = Sequence::new();
    let outcome = sequence.decorate_and_test(&FailingIoTest);
    assert!(matches!(outcome, TestOutcome::Failed(_)));
    // Without abort-on-failure the next test still runs.
    let test = RetriedIoTest { passing_invocation: 0, counter: Cell::new(0) };
    let outcome = sequence.decorate_and_test(&test);
    assert!(matches!(outcome, TestOutcome::Passed));
    assert_eq!(test.counter.get(), 1);
}

#[test]
fn sequence_records_panics_as_failures() {
    let sequence = Sequence::new().abort_on_failure();
    let test = ScriptedTest::<String>::new(vec![TestOutcome::Panicked("oops".to_string())]);
    let outcome = sequence.decorate_and_test(&test);
    assert!(matches!(outcome, TestOutcome::Panicked(_)));
    // The abnormal termination set the failure flag, so the next run skips.
    let outcome = sequence.decorate_and_test(&UnreachableTest);
    assert!(matches!(outcome, TestOutcome::Passed));
}

/// A decorator that rewrites an expected error into a pass, as a user of
/// the library would write one.
#[derive(Debug, Clone, Copy)]
struct ShouldError(&'static str);

impl<E: ToString> DecorateTest<E> for ShouldError {
    fn decorate_and_test<F: TestFn<E>>(&self, test_fn: &F) -> TestOutcome<E> {
        match test_fn.invoke() {
            TestOutcome::Passed => TestOutcome::Panicked(
                "Expected test to error, but it completed successfully".to_string(),
            ),
            TestOutcome::Failed(err) => {
                let err = err.to_string();
                if err.contains(self.0) {
                    TestOutcome::Passed
                } else {
                    TestOutcome::Panicked(format!(
                        "Expected error message to contain `{}`, but it was: {err}",
                        self.0
                    ))
                }
            },
            TestOutcome::Panicked(payload) => TestOutcome::Panicked(payload),
        }
    }
}

#[test]
fn mismatched_error_with_error_retries() {
    // The error matcher rejects "oops", so the retries are not used; the
    // inner decorator then accepts the error as the expected one.
    let retry_errors = Retry::times(1).on_error(|err: &String| err.contains("retry"));
    let decorators = (retry_errors, ShouldError("oops"));
    let test = ScriptedTest::<String>::new(vec![
        TestOutcome::Failed("oops".to_string()),
        TestOutcome::Failed("oops".to_string()),
    ]);
    let outcome = decorators.decorate_and_test(&test);
    assert!(matches!(outcome, TestOutcome::Passed));
    assert_eq!(test.invocations(), 1);
}

fn erratic_test() -> ScriptedTest<&'static str> {
    ScriptedTest::new(vec![
        TestOutcome::Passed,
        TestOutcome::Failed("nothing to see here"),
        TestOutcome::Failed("oops"),
    ])
}

#[test]
fn with_custom_decorator_and_retries() {
    // The retry wraps the expectation decorator: the unexpected pass and the
    // mismatched error are retried as abnormal terminations, and the third
    // attempt produces the expected error.
    let decorators = (Retry::times(2), ShouldError("oops"));
    let test = erratic_test();
    let outcome = decorators.decorate_and_test(&test);
    assert!(matches!(outcome, TestOutcome::Passed));
    assert_eq!(test.invocations(), 3);
}

#[test]
fn with_several_decorator_macros() {
    // The same chain, composed out of two nested chains.
    let inner = (ShouldError("oops"),);
    let decorators = (Retry::times(2), inner);
    let test = erratic_test();
    let outcome = decorators.decorate_and_test(&test);
    assert!(matches!(outcome, TestOutcome::Passed));
    assert_eq!(test.invocations(), 3);
}
