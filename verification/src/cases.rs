//! Case sources for parameterized tests.
//!
//! A [`TestCases`] value holds the argument tuples of one parameterized
//! test, addressed by zero-based index. A test driver obtains one case with
//! [`case`] (or [`try_case`], when it wants to report an out-of-range index
//! itself), checks the declared case count with [`check_case_count`], and
//! renders the arguments of a case for diagnostics with
//! [`ArgNames::print_with_args`].

use vstd::prelude::*;

use crate::text::{push_decimal, spec_decimal};

verus! {

/// Container for the cases of one parameterized test.
pub struct TestCases<T> {
    cases: Vec<T>,
}

impl<T> View for TestCases<T> {
    type V = Seq<T>;

    closed spec fn view(&self) -> Seq<T> {
        self.cases@
    }
}

impl<T> TestCases<T> {
    /// Creates a new set of test cases.
    pub fn new(cases: Vec<T>) -> (r: Self)
        ensures
            r@ == cases@,
    {
        TestCases { cases }
    }

    /// The number of cases this source yields.
    pub fn len(&self) -> (r: usize)
        ensures
            r == self@.len(),
    {
        self.cases.len()
    }
}

impl<T: Copy> TestCases<T> {
    /// The case at position `index`.
    pub fn get(&self, index: usize) -> (r: T)
        requires
            index < self@.len(),
        ensures
            r == self@[index as int],
    {
        self.cases[index]
    }
}

/// Obtains the test case at position `index`.
///
/// Indexing beyond the source's length is a contract violation of the
/// calling driver: it means the declared case count does not match the
/// source. A driver that must report such a violation at run time uses
/// [`try_case`] and fails loudly on `None`.
pub fn case<T: Copy>(cases: &TestCases<T>, index: usize) -> (r: T)
    requires
        index < cases@.len(),
    ensures
        r == cases@[index as int],
{
    cases.get(index)
}

/// Obtains the test case at position `index`, or `None` when the source
/// yields fewer than `index + 1` cases.
pub fn try_case<T: Copy>(cases: &TestCases<T>, index: usize) -> (r: Option<T>)
    ensures
        index < cases@.len() ==> r == Some(cases@[index as int]),
        index >= cases@.len() ==> r is None,
{
    if index < cases.len() {
        Some(cases.get(index))
    } else {
        None
    }
}

/// A mismatch between the case count a parameterized test declares and the
/// count its case source actually yields.
///
/// `actual` is what an eager draining of the source observes: the source's
/// length, capped at `expected + 1` — one probe beyond the declared count
/// settles the mismatch without materializing an overlong source.
#[derive(Debug, Clone, Copy, PartialEq, Eq, Structural)]
pub struct CaseCountMismatch {
    /// The declared case count.
    pub expected: usize,
    /// The observed case count, capped at `expected + 1`.
    pub actual: usize,
}

/// The text under which a [`CaseCountMismatch`] is reported, naming both
/// counts.
pub open spec fn spec_mismatch_message(expected: nat, actual: nat) -> Seq<char> {
    "Expected "@ + spec_decimal(expected) + " test case(s), but the case source yielded "@
        + spec_decimal(actual)
}

impl CaseCountMismatch {
    /// Renders the mismatch report, naming both counts.
    pub fn message(&self) -> (r: String)
        ensures
            r@ == spec_mismatch_message(self.expected as nat, self.actual as nat),
    {
        let mut out = String::new();
        out.append("Expected ");
        push_decimal(&mut out, self.expected as u64);
        out.append(" test case(s), but the case source yielded ");
        push_decimal(&mut out, self.actual as u64);
        proof {
            assert(out@ =~= spec_mismatch_message(self.expected as nat, self.actual as nat));
        }
        out
    }
}

/// Checks a declared case count against a case source: `Ok` exactly when
/// the source yields `expected` cases, and otherwise a [`CaseCountMismatch`]
/// reporting both counts, the observed one capped at `expected + 1`.
pub fn check_case_count<T>(cases: &TestCases<T>, expected: usize) -> (r: Result<
    (),
    CaseCountMismatch,
>)
    ensures
        r is Ok <==> cases@.len() == expected,
        r matches Err(m) ==> m.expected == expected && m.actual == if cases@.len() > expected {
            expected + 1
        } else {
            cases@.len() as int
        },
{
    let len = cases.len();
    if len == expected {
        Ok(())
    } else {
        let actual = if len > expected {
            expected + 1
        } else {
            len
        };
        Err(CaseCountMismatch { expected, actual })
    }
}

/// The rendering of one named argument: `name = value`.
pub open spec fn spec_named_pair(name: Seq<char>, value: Seq<char>) -> Seq<char> {
    name + " = "@ + value
}

/// The rendering of a list of named arguments, comma-separated:
/// `name1 = value1, name2 = value2`.
pub open spec fn spec_named_args(names: Seq<Seq<char>>, values: Seq<Seq<char>>) -> Seq<char>
    decreases names.len(),
{
    if names.len() == 0 {
        Seq::empty()
    } else if names.len() == 1 {
        spec_named_pair(names[0], values[0])
    } else {
        spec_named_args(names.drop_last(), values.drop_last()) + ", "@ + spec_named_pair(
            names.last(),
            values.last(),
        )
    }
}

/// Formats a list of argument names paired with pre-rendered values as
/// `name1 = value1, name2 = value2`.
pub fn render_named_args(names: &Vec<&'static str>, values: &Vec<String>) -> (r: String)
    requires
        names@.len() == values@.len(),
    ensures
        r@ == spec_named_args(
            names@.map_values(|s: &'static str| s@),
            values@.map_values(|s: String| s@),
        ),
{
    let ghost name_views = names@.map_values(|s: &'static str| s@);
    let ghost value_views = values@.map_values(|s: String| s@);
    let mut out = String::new();
    let mut i: usize = 0;
    while i < names.len()
        invariant
            i <= names@.len(),
            names@.len() == values@.len(),
            name_views == names@.map_values(|s: &'static str| s@),
            value_views == values@.map_values(|s: String| s@),
            out@ == spec_named_args(name_views.take(i as int), value_views.take(i as int)),
        decreases names@.len() - i,
    {
        if i > 0 {
            out.append(", ");
        }
        out.append(names[i]);
        out.append(" = ");
        let value: &String = &values[i];
        out.append(value.as_str());
        proof {
            assert(name_views.take(i + 1).drop_last() =~= name_views.take(i as int));
            assert(value_views.take(i + 1).drop_last() =~= value_views.take(i as int));
            assert(out@ =~= spec_named_args(name_views.take(i + 1), value_views.take(i + 1)));
        }
        i = i + 1;
    }
    proof {
        assert(name_views.take(names@.len() as int) =~= name_views);
        assert(value_views.take(values@.len() as int) =~= value_views);
    }
    out
}

/// Relies on `core::fmt::Debug` via `format!` for the debug rendering of a
/// value. The rendering depends on the type's `Debug` implementation, so
/// nothing is promised of it.
#[verifier::external_body]
fn debug_string<T: core::fmt::Debug>(value: &T) -> (r: String) {
    format!("{value:?}")
}

/// Allows printing named arguments together with their values to a `String`.
///
/// Implemented for arrays of argument names of lengths 1 through 7, against
/// argument tuples of the matching arity (a plain value for arity 1). Values
/// are rendered through their `Debug` implementations, so only the shape and
/// the names of the rendering are promised.
pub trait ArgNames<T>: Sized {
    /// The names, as character sequences.
    spec fn spec_names(self) -> Seq<Seq<char>>;

    /// Renders `name1 = value1, name2 = value2` for the given argument
    /// values.
    fn print_with_args(self, args: &T) -> (r: String)
        ensures
            exists|values: Seq<Seq<char>>|
                values.len() == self.spec_names().len() && r@ == spec_named_args(
                    self.spec_names(),
                    values,
                ),
    ;
}

impl<T: core::fmt::Debug> ArgNames<T> for [&'static str; 1] {
    open spec fn spec_names(self) -> Seq<Seq<char>> {
        seq![self[0]@]
    }

    fn print_with_args(self, args: &T) -> (r: String) {
        let ghost spec_names = <[&'static str; 1] as ArgNames<T>>::spec_names(self);
        let mut names: Vec<&'static str> = Vec::new();
        names.push(self[0]);
        let mut values: Vec<String> = Vec::new();
        values.push(debug_string(args));
        let r = render_named_args(&names, &values);
        proof {
            assert(names@.map_values(|s: &'static str| s@) =~= spec_names);
            let witness = values@.map_values(|s: String| s@);
            assert(witness.len() == spec_names.len() && r@ == spec_named_args(
                spec_names,
                witness,
            ));
        }
        r
    }
}

impl<T: core::fmt::Debug, U: core::fmt::Debug> ArgNames<(T, U)> for [&'static str; 2] {
    open spec fn spec_names(self) -> Seq<Seq<char>> {
        seq![self[0]@, self[1]@]
    }

    fn print_with_args(self, args: &(T, U)) -> (r: String) {
        let ghost spec_names = <[&'static str; 2] as ArgNames<(T, U)>>::spec_names(self);
        let mut names: Vec<&'static str> = Vec::new();
        names.push(self[0]);
        names.push(self[1]);
        let mut values: Vec<String> = Vec::new();
        values.push(debug_string(&args.0));
        values.push(debug_string(&args.1));
        let r = render_named_args(&names, &values);
        proof {
            assert(names@.map_values(|s: &'static str| s@) =~= spec_names);
            let witness = values@.map_values(|s: String| s@);
            assert(witness.len() == spec_names.len() && r@ == spec_named_args(
                spec_names,
                witness,
            ));
        }
        r
    }
}

impl<T: core::fmt::Debug, U: core::fmt::Debug, V: core::fmt::Debug> ArgNames<(T, U, V)> for [&'static str; 3] {
    open spec fn spec_names(self) -> Seq<Seq<char>> {
        seq![self[0]@, self[1]@, self[2]@]
    }

    fn print_with_args(self, args: &(T, U, V)) -> (r: String) {
        let ghost spec_names = <[&'static str; 3] as ArgNames<(T, U, V)>>::spec_names(self);
        let mut names: Vec<&'static str> = Vec::new();
        names.push(self[0]);
        names.push(self[1]);
        names.push(self[2]);
        let mut values: Vec<String> = Vec::new();
        values.push(debug_string(&args.0));
        values.push(debug_string(&args.1));
        values.push(debug_string(&args.2));
        let r = render_named_args(&names, &values);
        proof {
            assert(names@.map_values(|s: &'static str| s@) =~= spec_names);
            let witness = values@.map_values(|s: String| s@);
            assert(witness.len() == spec_names.len() && r@ == spec_named_args(
                spec_names,
                witness,
            ));
        }
        r
    }
}

impl<
    T: core::fmt::Debug,
    U: core::fmt::Debug,
    V: core::fmt::Debug,
    W: core::fmt::Debug,
> ArgNames<(T, U, V, W)> for [&'static str; 4] {
    open spec fn spec_names(self) -> Seq<Seq<char>> {
        seq![self[0]@, self[1]@, self[2]@, self[3]@]
    }

    fn print_with_args(self, args: &(T, U, V, W)) -> (r: String) {
        let ghost spec_names = <[&'static str; 4] as ArgNames<(T, U, V, W)>>::spec_names(self);
        let mut names: Vec<&'static str> = Vec::new();
        names.push(self[0]);
        names.push(self[1]);
        names.push(self[2]);
        names.push(self[3]);
        let mut values: Vec<String> = Vec::new();
        values.push(debug_string(&args.0));
        values.push(debug_string(&args.1));
        values.push(debug_string(&args.2));
        values.push(debug_string(&args.3));
        let r = render_named_args(&names, &values);
        proof {
            assert(names@.map_values(|s: &'static str| s@) =~= spec_names);
            let witness = values@.map_values(|s: String| s@);
            assert(witness.len() == spec_names.len() && r@ == spec_named_args(
                spec_names,
                witness,
            ));
        }
        r
    }
}

impl<
    T: core::fmt::Debug,
    U: core::fmt::Debug,
    V: core::fmt::Debug,
    W: core::fmt::Debug,
    X: core::fmt::Debug,
> ArgNames<(T, U, V, W, X)> for [&'static str; 5] {
    open spec fn spec_names(self) -> Seq<Seq<char>> {
        seq![self[0]@, self[1]@, self[2]@, self[3]@, self[4]@]
    }

    fn print_with_args(self, args: &(T, U, V, W, X)) -> (r: String) {
        let ghost spec_names = <[&'static str; 5] as ArgNames<(T, U, V, W, X)>>::spec_names(self);
        let mut names: Vec<&'static str> = Vec::new();
        names.push(self[0]);
        names.push(self[1]);
        names.push(self[2]);
        names.push(self[3]);
        names.push(self[4]);
        let mut values: Vec<String> = Vec::new();
        values.push(debug_string(&args.0));
        values.push(debug_string(&args.1));
        values.push(debug_string(&args.2));
        values.push(debug_string(&args.3));
        values.push(debug_string(&args.4));
        let r = render_named_args(&names, &values);
        proof {
            assert(names@.map_values(|s: &'static str| s@) =~= spec_names);
            let witness = values@.map_values(|s: String| s@);
            assert(witness.len() == spec_names.len() && r@ == spec_named_args(
                spec_names,
                witness,
            ));
        }
        r
    }
}

impl<
    T: core::fmt::Debug,
    U: core::fmt::Debug,
    V: core::fmt::Debug,
    W: core::fmt::Debug,
    X: core::fmt::Debug,
    Y: core::fmt::Debug,
> ArgNames<(T, U, V, W, X, Y)> for [&'static str; 6] {
    open spec fn spec_names(self) -> Seq<Seq<char>> {
        seq![self[0]@, self[1]@, self[2]@, self[3]@, self[4]@, self[5]@]
    }

    fn print_with_args(self, args: &(T, U, V, W, X, Y)) -> (r: String) {
        let ghost spec_names = <[&'static str; 6] as ArgNames<(T, U, V, W, X, Y)>>::spec_names(
            self,
        );
        let mut names: Vec<&'static str> = Vec::new();
        names.push(self[0]);
        names.push(self[1]);
        names.push(self[2]);
        names.push(self[3]);
        names.push(self[4]);
        names.push(self[5]);
        let mut values: Vec<String> = Vec::new();
        values.push(debug_string(&args.0));
        values.push(debug_string(&args.1));
        values.push(debug_string(&args.2));
        values.push(debug_string(&args.3));
        values.push(debug_string(&args.4));
        values.push(debug_string(&args.5));
        let r = render_named_args(&names, &values);
        proof {
            assert(names@.map_values(|s: &'static str| s@) =~= spec_names);
            let witness = values@.map_values(|s: String| s@);
            assert(witness.len() == spec_names.len() && r@ == spec_named_args(
                spec_names,
                witness,
            ));
        }
        r
    }
}

impl<
    T: core::fmt::Debug,
    U: core::fmt::Debug,
    V: core::fmt::Debug,
    W: core::fmt::Debug,
    X: core::fmt::Debug,
    Y: core::fmt::Debug,
    Z: core::fmt::Debug,
> ArgNames<(T, U, V, W, X, Y, Z)> for [&'static str; 7] {
    open spec fn spec_names(self) -> Seq<Seq<char>> {
        seq![self[0]@, self[1]@, self[2]@, self[3]@, self[4]@, self[5]@, self[6]@]
    }

    fn print_with_args(self, args: &(T, U, V, W, X, Y, Z)) -> (r: String) {
        let ghost spec_names = <[&'static str; 7] as ArgNames<(T, U, V, W, X, Y, Z)>>::spec_names(
            self,
        );
        let mut names: Vec<&'static str> = Vec::new();
        names.push(self[0]);
        names.push(self[1]);
        names.push(self[2]);
        names.push(self[3]);
        names.push(self[4]);
        names.push(self[5]);
        names.push(self[6]);
        let mut values: Vec<String> = Vec::new();
        values.push(debug_string(&args.0));
        values.push(debug_string(&args.1));
        values.push(debug_string(&args.2));
        values.push(debug_string(&args.3));
        values.push(debug_string(&args.4));
        values.push(debug_string(&args.5));
        values.push(debug_string(&args.6));
        let r = render_named_args(&names, &values);
        proof {
            assert(names@.map_values(|s: &'static str| s@) =~= spec_names);
            let witness = values@.map_values(|s: String| s@);
            assert(witness.len() == spec_names.len() && r@ == spec_named_args(
                spec_names,
                witness,
            ));
        }
        r
    }
}

} // verus!
