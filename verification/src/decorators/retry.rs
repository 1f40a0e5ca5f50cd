//! The retry decorators.

use vstd::prelude::*;

use crate::decorators::clock::pause_millis;
use crate::decorators::{DecorateTest, TestFn, TestOutcome};

verus! {

/// [Test decorator](DecorateTest) that retries a wrapped test the specified
/// number of times, optionally with a delay between attempts.
///
/// Every failure — a typed error as well as an abnormal termination — is
/// retried until the attempts are exhausted; [`RetryErrors`], built with
/// [`Retry::on_error`], narrows the retried errors to those a matcher
/// accepts. The final attempt's outcome is returned unchanged.
#[derive(Debug, Clone, Copy)]
pub struct Retry {
    /// Maximum number of retries; `times + 1` is the maximum number of
    /// attempts, and zero means a single attempt.
    pub times: usize,
    /// Pause between attempts, in milliseconds.
    pub delay_ms: u64,
}

/// What a retry policy does with one attempt's outcome.
#[derive(Debug)]
pub enum RetryDecision<E> {
    /// Stop and report this outcome.
    Finish(TestOutcome<E>),
    /// Run another attempt after pausing for the carried number of
    /// milliseconds.
    RetryAfter(u64),
}

/// Whether an attempt with this outcome and matcher verdict is followed by
/// another attempt (given that attempts remain): a pass never is, an
/// abnormal termination always is, and a typed error is when the matcher
/// accepted it.
pub open spec fn retry_continues<E>(outcome: TestOutcome<E>, matched: bool) -> bool {
    !outcome.is_passed() && (outcome matches TestOutcome::Panicked(_) || matched)
}

/// How a completed retry run relates to the attempt outcomes it observed.
///
/// `history` lists the outcome of every attempt in order, `verdicts` the
/// matcher's vote on each (`true` wherever the outcome was not a typed
/// error), and `r` the run's result. A valid run made between 1 and
/// `times + 1` attempts, retried exactly the non-final attempts, returned
/// the final attempt's outcome unchanged, and stopped only for one of the
/// three terminal reasons: a pass, exhausted attempts, or a rejected error.
pub open spec fn retry_run<E>(
    times: nat,
    history: Seq<TestOutcome<E>>,
    verdicts: Seq<bool>,
    r: TestOutcome<E>,
) -> bool {
    &&& 1 <= history.len() <= times + 1
    &&& verdicts.len() == history.len()
    &&& forall|i: int|
        0 <= i < history.len() - 1 ==> retry_continues(#[trigger] history[i], verdicts[i])
    &&& r == history.last()
    &&& (history.last().is_passed() || history.len() == times + 1 || (history.last() matches
        TestOutcome::Failed(_) && !verdicts.last()))
}

/// Whether `verdict` is a vote the `matcher` can have produced on `outcome`:
/// on a typed error it is what the matcher returned, on anything else it is
/// `true`.
pub open spec fn matcher_verdict<E, M: Fn(&E) -> bool>(
    matcher: M,
    outcome: TestOutcome<E>,
    verdict: bool,
) -> bool {
    match outcome {
        TestOutcome::Failed(e) => call_ensures(matcher, (&e,), verdict),
        _ => verdict == true,
    }
}

impl Retry {
    /// Specifies the number of retries. The delay between attempts is zero.
    pub fn times(times: usize) -> (r: Self)
        ensures
            r.times == times,
            r.delay_ms == 0,
    {
        Retry { times, delay_ms: 0 }
    }

    /// Specifies the delay between attempts, in milliseconds.
    pub fn with_delay(self, delay_ms: u64) -> (r: Self)
        ensures
            r.times == self.times,
            r.delay_ms == delay_ms,
    {
        Retry { delay_ms, ..self }
    }

    /// Converts this retry specification to only retry errors that the given
    /// matcher accepts. The matcher must be callable on every error value.
    pub fn on_error<E, M: Fn(&E) -> bool>(self, matcher: M) -> (r: RetryErrors<E, M>)
        requires
            forall|e: &E| call_requires(matcher, (e,)),
        ensures
            r.policy() == self,
    {
        RetryErrors { inner: self, matcher, marker: core::marker::PhantomData }
    }

    /// What this policy does with the outcome of attempt number `attempt`
    /// (zero-based) when the matcher voted `matched` on it.
    pub open spec fn decision<E>(
        self,
        attempt: nat,
        outcome: TestOutcome<E>,
        matched: bool,
    ) -> RetryDecision<E> {
        if !outcome.is_passed() && attempt < self.times && retry_continues(outcome, matched) {
            RetryDecision::RetryAfter(self.delay_ms)
        } else {
            RetryDecision::Finish(outcome)
        }
    }

    /// Decides what to do with one attempt's outcome: stop on a pass, stop
    /// when the attempts are exhausted, stop on a typed error the matcher
    /// rejected (`matched == false`), and otherwise retry after the
    /// configured delay.
    pub fn evaluate<E>(&self, attempt: usize, outcome: TestOutcome<E>, matched: bool) -> (d:
        RetryDecision<E>)
        ensures
            d == self.decision(attempt as nat, outcome, matched),
    {
        match outcome {
            TestOutcome::Passed => RetryDecision::Finish(TestOutcome::Passed),
            TestOutcome::Failed(err) => {
                if attempt >= self.times || !matched {
                    RetryDecision::Finish(TestOutcome::Failed(err))
                } else {
                    RetryDecision::RetryAfter(self.delay_ms)
                }
            },
            TestOutcome::Panicked(payload) => {
                if attempt >= self.times {
                    RetryDecision::Finish(TestOutcome::Panicked(payload))
                } else {
                    RetryDecision::RetryAfter(self.delay_ms)
                }
            },
        }
    }

    /// Runs the test with retries: invokes it up to `times + 1` times,
    /// letting `should_retry` vote on every typed error, pausing for the
    /// configured delay between attempts, and returning the final attempt's
    /// outcome unchanged.
    pub fn run_with_retries<E, F: TestFn<E>, M: Fn(&E) -> bool>(
        &self,
        test_fn: &F,
        should_retry: &M,
    ) -> (r: TestOutcome<E>)
        requires
            forall|e: &E| call_requires(*should_retry, (e,)),
        ensures
            exists|history: Seq<TestOutcome<E>>, verdicts: Seq<bool>|
                {
                    &&& retry_run(self.times as nat, history, verdicts, r)
                    &&& forall|i: int|
                        0 <= i < history.len() ==> matcher_verdict(
                            *should_retry,
                            #[trigger] history[i],
                            verdicts[i],
                        )
                },
    {
        let mut attempt: usize = 0;
        let ghost mut history: Seq<TestOutcome<E>> = Seq::empty();
        let ghost mut verdicts: Seq<bool> = Seq::empty();
        loop
            invariant
                attempt <= self.times,
                history.len() == attempt,
                verdicts.len() == attempt,
                forall|i: int|
                    0 <= i < history.len() ==> retry_continues(#[trigger] history[i], verdicts[i]),
                forall|i: int|
                    0 <= i < history.len() ==> matcher_verdict(
                        *should_retry,
                        #[trigger] history[i],
                        verdicts[i],
                    ),
                forall|e: &E| call_requires(*should_retry, (e,)),
            decreases self.times - attempt,
        {
            let outcome = test_fn.invoke();
            let matched = match &outcome {
                TestOutcome::Failed(e) => (should_retry)(e),
                _ => true,
            };
            proof {
                history = history.push(outcome);
                verdicts = verdicts.push(matched);
            }
            match self.evaluate(attempt, outcome, matched) {
                RetryDecision::Finish(out) => {
                    proof {
                        assert(retry_run(self.times as nat, history, verdicts, out));
                        assert(forall|i: int|
                            0 <= i < history.len() ==> matcher_verdict(
                                *should_retry,
                                #[trigger] history[i],
                                verdicts[i],
                            ));
                    }
                    return out;
                },
                RetryDecision::RetryAfter(delay_ms) => {
                    if delay_ms > 0 {
                        pause_millis(delay_ms);
                    }
                    attempt = attempt + 1;
                },
            }
        }
    }
}

impl<E> DecorateTest<E> for Retry {
    fn decorate_and_test<F: TestFn<E>>(&self, test_fn: &F) -> TestOutcome<E> {
        let always = |_unused: &E| -> bool { true };
        self.run_with_retries(test_fn, &always)
    }
}

/// [Test decorator](DecorateTest) that retries a wrapped test a certain
/// number of times only when the produced error matches the specified
/// predicate. Abnormal terminations are still always retried.
///
/// Constructed using [`Retry::on_error()`].
#[verifier::reject_recursive_types(E)]
pub struct RetryErrors<E, M: Fn(&E) -> bool> {
    inner: Retry,
    matcher: M,
    marker: core::marker::PhantomData<E>,
}

impl<E, M: Fn(&E) -> bool> RetryErrors<E, M> {
    #[verifier::type_invariant]
    spec fn matcher_callable(self) -> bool {
        forall|e: &E| call_requires(self.matcher, (e,))
    }

    /// The underlying retry policy.
    pub closed spec fn policy(self) -> Retry {
        self.inner
    }
}

impl<E, M: Fn(&E) -> bool> DecorateTest<E> for RetryErrors<E, M> {
    fn decorate_and_test<F: TestFn<E>>(&self, test_fn: &F) -> TestOutcome<E> {
        proof {
            use_type_invariant(self);
        }
        self.inner.run_with_retries(test_fn, &self.matcher)
    }
}

/// A run that never passes and whose matcher always votes to retry uses all
/// `times + 1` attempts and reports the last attempt's outcome unchanged: an
/// exhausted retry neither invents nor swallows a result.
pub proof fn lemma_retry_exhausts_failures<E>(
    times: nat,
    history: Seq<TestOutcome<E>>,
    verdicts: Seq<bool>,
    r: TestOutcome<E>,
)
    requires
        retry_run(times, history, verdicts, r),
        forall|i: int| 0 <= i < history.len() ==> !(#[trigger] history[i]).is_passed(),
        forall|i: int| 0 <= i < verdicts.len() ==> verdicts[i],
    ensures
        history.len() == times + 1,
        r == history.last(),
        !r.is_passed(),
{
}

/// A typed error that the matcher rejected ends the run at once: it is the
/// final attempt, and the run reports exactly that error, however many
/// retries were still available.
pub proof fn lemma_retry_respects_matcher<E>(
    times: nat,
    history: Seq<TestOutcome<E>>,
    verdicts: Seq<bool>,
    r: TestOutcome<E>,
    i: int,
)
    requires
        retry_run(times, history, verdicts, r),
        0 <= i < history.len(),
        history[i] matches TestOutcome::Failed(_),
        !verdicts[i],
    ensures
        i == history.len() - 1,
        r == history[i],
{
    if i < history.len() - 1 {
        assert(retry_continues(history[i], verdicts[i]));
    }
}

} // verus!
