//! Test utilities: a table-driven mock for outbound HTTP requests, and a
//! two-phase pipeline that turns fixture data into prepared test cases.
//!
//! The mock lives in [`fetch`]: a [`fetch::Fetcher`] serves a
//! [`request::Request`] from the first entry of its table that is keyed on
//! the request's method, authority, path and query string, and answers with
//! a [`reply::Reply`] or an [`error::FetchError`].
//!
//! The pipeline lives here: a [`Fixture`] turns a [`testdef::TestDef`] into
//! typed values, and a [`TestCase`] prepares them for a test runner.
//!
//! The modules [`json`], [`payload`], [`status`] and [`text`] hold what is
//! taken on trust from `serde_json`, `bytes`, `http` and the standard
//! library: each such item says in its comment what is claimed of it.

use vstd::prelude::*;

use crate::fetch::Fetch;
use crate::testdef::TestDef;

pub mod error;
pub mod fetch;
pub mod json;
pub mod payload;
pub mod reply;
pub mod request;
pub mod status;
pub mod testdef;
pub mod text;

verus! {

/// An optional value, borrowed.
pub open spec fn borrowed<T>(value: &Option<T>) -> Option<&T> {
    match value {
        Some(value) => Some(&value),
        None => None,
    }
}

/// A trait that expresses the structure of taking in some data and
/// constructing (say by deserialization) an input and an output.
///
/// A fixture is a value: what its methods return depends on nothing but the
/// data it was built from. Each method that reads the fixture therefore has a
/// specification function beside it that says what it returns.
pub trait Fixture: Sized {
    /// Type of input data needed by the test case. In most cases this is likely
    /// to be the request type of the handler under test.
    type Input;

    /// Type of output data produced by the test case. This could be the
    /// expected output type of the handler under test, or an error type for
    /// failure cases. Many tests cases don't care about the handler's output
    /// type but a type that represents success or failure of some internal
    /// processing.
    type Output;

    /// Type of error that can occur when producing the expected output.
    type Error: std::fmt::Debug + std::fmt::Display;

    /// Sometimes the raw input data needs to be transformed before being
    /// passed to the test case handler, for example to adjust timestamps to
    /// be relative to 'now'.
    type TransformParams;

    /// The fixture that `from_data` builds from a test definition.
    spec fn built(data_def: TestDef<Self::Error>) -> Self;

    /// The baseline input that `input` returns.
    spec fn input_value(&self) -> Option<Self::Input>;

    /// The context that `transform` hands to the transformation function.
    /// There is none unless a fixture says otherwise.
    open spec fn params_value(&self) -> Option<Self::TransformParams> {
        None
    }

    /// The expectation that `output` returns.
    spec fn output_value(&self) -> Option<Result<Self::Output, Self::Error>>;

    /// Convert test data definition into the specific data type that implements
    /// this trait.
    fn from_data(data_def: &TestDef<Self::Error>) -> (fixture: Self)
        ensures
            fixture == Self::built(*data_def),
    ;

    /// Convert input data into the input type needed by the test case handler.
    /// `None` says that there is nothing to execute.
    fn input(&self) -> (input: Option<Self::Input>)
        ensures
            input == self.input_value(),
    ;

    /// Convert input data into transformation parameters for the test case
    /// handler.
    fn params(&self) -> (params: Option<Self::TransformParams>)
        ensures
            params is Some ==> params == self.params_value(),
        default_ensures
            params is None,
    {
        None
    }

    /// Apply a transformation function to the input data before passing it to
    /// the test case handler. Only a fixture that has an input is transformed.
    fn transform<F>(&self, f: F) -> (input: Self::Input) where
        F: FnOnce(&Self::Input, Option<&Self::TransformParams>) -> Self::Input,

        requires
            self.input_value() is Some,
            call_requires(f, (&self.input_value()->Some_0, borrowed(&self.params_value()))),
        ensures
            call_ensures(f, (&self.input_value()->Some_0, borrowed(&self.params_value())), input),
    ;

    /// Convert input data into the expected output type needed by the test
    /// case handler, which could be an error for failure cases.
    fn output(&self) -> (output: Option<Result<Self::Output, Self::Error>>)
        ensures
            output == self.output_value(),
    ;
}

/// A test case builder that can be prepared for execution.
pub struct TestCase<D> where D: Fixture + Clone {
    test_def: TestDef<D::Error>,
}

/// A test case that has been prepared for execution by transforming its input
/// and extracting its expected output and extension data into a form that is
/// digestible by the test runner.
pub struct PreparedTestCase<D> where D: Fixture + Clone {
    /// Prepared input data ready for the handler under test.
    pub input: Option<D::Input>,
    /// Optional http request mocks required by the handler.
    pub http_requests: Option<Vec<Fetch>>,
    /// Expected output or error produced by the fixture.
    pub output: Option<Result<D::Output, D::Error>>,
}

impl<D> Clone for PreparedTestCase<D> where
    D: Fixture + Clone,
    D::Input: Clone,
    D::Output: Clone,
    D::Error: Clone,
 {
    /// The copy holds the same mock requests; the input and the expectation
    /// are copied as their own `clone` copies them.
    fn clone(&self) -> (copy: Self)
        ensures
            match (self.input, copy.input) {
                (None, None) => true,
                (Some(input), Some(copied)) => cloned(input, copied),
                _ => false,
            },
            copy.http_requests.deep_view() == self.http_requests.deep_view(),
            match (self.output, copy.output) {
                (None, None) => true,
                (Some(Ok(expected)), Some(Ok(copied))) => cloned(expected, copied),
                (Some(Err(expected)), Some(Err(copied))) => cloned(expected, copied),
                _ => false,
            },
    {
        let input = match &self.input {
            None => None,
            Some(input) => Some(input.clone()),
        };
        let output = match &self.output {
            None => None,
            Some(Ok(expected)) => Some(Ok(expected.clone())),
            Some(Err(expected)) => Some(Err(expected.clone())),
        };
        Self { input, http_requests: self.http_requests.clone(), output }
    }
}

/// What preparing a test definition with a transformation gives: the mock
/// requests of the definition as they stand, the expectation of the fixture
/// built from it, and the fixture's input after the transformation, or no
/// input where the fixture has none.
pub open spec fn prepared_from<D, F>(
    data_def: TestDef<D::Error>,
    transform: F,
    prepared: PreparedTestCase<D>,
) -> bool where
    D: Fixture + Clone,
    F: FnOnce(&D::Input, Option<&D::TransformParams>) -> D::Input,
 {
    let fixture = D::built(data_def);
    &&& prepared.http_requests.deep_view() == data_def.http_requests.deep_view()
    &&& prepared.output == fixture.output_value()
    &&& match fixture.input_value() {
        None => prepared.input is None,
        Some(input) => prepared.input is Some && call_ensures(
            transform,
            (&input, borrowed(&fixture.params_value())),
            prepared.input->Some_0,
        ),
    }
}

impl<D> TestCase<D> where D: Clone + Fixture {
    /// The test definition that this test case owns.
    pub closed spec fn def(&self) -> TestDef<D::Error> {
        self.test_def
    }

    /// Create a new test case from the given fixture data.
    #[must_use]
    pub fn new(test_def: TestDef<D::Error>) -> (case: Self)
        ensures
            case.def() == test_def,
    {
        Self { test_def }
    }

    /// Apply input transformation and conversion of input data types into
    /// the types needed by the test case handler.
    ///
    /// The transformation is called only where the fixture has an input, and
    /// so needs to accept no other.
    pub fn prepare<F>(&self, transform: F) -> (prepared: PreparedTestCase<D>) where
        F: FnOnce(&D::Input, Option<&D::TransformParams>) -> D::Input,

        requires
            D::built(self.def()).input_value() matches Some(input) ==> call_requires(
                transform,
                (&input, borrowed(&D::built(self.def()).params_value())),
            ),
        ensures
            prepared_from(self.def(), transform, prepared),
    {
        let http_requests = self.test_def.http_requests.clone();
        let data = D::from_data(&self.test_def);
        let output = data.output();
        if data.input().is_none() {
            return PreparedTestCase { input: None, http_requests, output };
        }
        let input = data.transform(transform);
        PreparedTestCase { input: Some(input), http_requests, output }
    }
}

/// A fixture without input gives a prepared test case without input, whatever
/// the transformation is; the mock requests and the expectation are there
/// all the same.
pub proof fn lemma_prepared_without_input<D, F>(
    data_def: TestDef<D::Error>,
    transform: F,
    prepared: PreparedTestCase<D>,
) where
    D: Fixture + Clone,
    F: FnOnce(&D::Input, Option<&D::TransformParams>) -> D::Input,

    requires
        D::built(data_def).input_value() is None,
        prepared_from(data_def, transform, prepared),
    ensures
        prepared.input is None,
        prepared.http_requests.deep_view() == data_def.http_requests.deep_view(),
        prepared.output == D::built(data_def).output_value(),
{
}

/// Preparing is repeatable: two test cases over the same definition,
/// prepared with transformations that give one and the same result on the
/// same arguments, give prepared test cases that are equal field by field.
pub proof fn lemma_prepare_repeatable<D, F, G>(
    first: TestCase<D>,
    second: TestCase<D>,
    f: F,
    g: G,
    a: PreparedTestCase<D>,
    b: PreparedTestCase<D>,
) where
    D: Fixture + Clone,
    F: FnOnce(&D::Input, Option<&D::TransformParams>) -> D::Input,
    G: FnOnce(&D::Input, Option<&D::TransformParams>) -> D::Input,

    requires
        first.def() == second.def(),
        forall|input: &D::Input, params: Option<&D::TransformParams>, x: D::Input, y: D::Input|
            #![trigger call_ensures(f, (input, params), x), call_ensures(g, (input, params), y)]
            call_ensures(f, (input, params), x) && call_ensures(g, (input, params), y) ==> x == y,
        prepared_from(first.def(), f, a),
        prepared_from(second.def(), g, b),
    ensures
        a.input == b.input,
        a.http_requests.deep_view() == b.http_requests.deep_view(),
        a.output == b.output,
{
}

} // verus!
