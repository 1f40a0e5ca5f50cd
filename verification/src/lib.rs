//! Minimalistic testing toolkit for running a test function under a set of
//! test cases and for decorating a test run with retries, timeouts and
//! sequential processing.
//!
//! The crate has two halves:
//!
//! - [`cases`] holds the case sources: [`TestCases`], the [`case`] lookup
//!   used by a test driver, and helpers for naming and counting cases;
//!   [`product`] composes several sources into their Cartesian [`Product`].
//! - [`decorators`] holds the execution engine: the [`TestFn`] capability
//!   (one supervised invocation of a test body, reported as a
//!   [`TestOutcome`]), the [`DecorateTest`] trait, composition of decorator
//!   chains, and the reference decorators [`Timeout`], [`Retry`],
//!   [`RetryErrors`] and [`Sequence`].
//!
//! A test body never unwinds through this library: a supervising boundary
//! (provided by the embedding harness) turns a panic into
//! [`TestOutcome::Panicked`] with the extracted payload text, and the
//! decorators operate on that value. A decorator that gives up re-raises the
//! abnormal termination by returning the same `Panicked` value outward,
//! payload unchanged.

pub mod cases;
pub mod decorators;
pub mod product;
pub mod text;

pub use cases::{
    case, check_case_count, render_named_args, try_case, ArgNames, CaseCountMismatch, TestCases,
};
pub use product::{Product, ProductIter};
pub use decorators::{
    DecorateTest, DecorateTestFn, Decorated, Retry, RetryDecision, RetryErrors, Sequence, TestFn,
    TestOutcome, Timeout, Trace,
};
