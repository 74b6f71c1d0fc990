use std::cell::Cell;

use serde_json::Value;
use test_utils::fetch::{Fetch, Method, Response};
use test_utils::testdef::TestDef;
use test_utils::{Fixture, PreparedTestCase, TestCase};

#[derive(Clone, Debug, PartialEq, Eq)]
struct Refused(String);

impl std::fmt::Display for Refused {
    fn fmt(&self, f: &mut std::fmt::Formatter<'_>) -> std::fmt::Result {
        f.write_str(&self.0)
    }
}

impl std::error::Error for Refused {}

/// A fixture over whole numbers: the input is a number, the context an amount
/// to add, the expected output a number.
#[derive(Clone, Debug, PartialEq, Eq)]
struct Counter {
    input: Option<i64>,
    params: Option<i64>,
    output: Option<Result<i64, Refused>>,
}

impl Fixture for Counter {
    type Input = i64;
    type Output = i64;
    type Error = Refused;
    type TransformParams = i64;

    fn built(data_def: TestDef<Refused>) -> Self {
        Self::from_data(&data_def)
    }

    fn input_value(&self) -> Option<i64> {
        self.input
    }

    fn params_value(&self) -> Option<i64> {
        self.params
    }

    fn output_value(&self) -> Option<Result<i64, Refused>> {
        self.output.clone()
    }

    fn from_data(data_def: &TestDef<Refused>) -> Self {
        Self {
            input: data_def.input.as_ref().and_then(Value::as_i64),
            params: data_def.params.as_ref().and_then(Value::as_i64),
            output: data_def.output.clone().map(|expected| {
                expected.map(|value| value.as_i64().expect("output should be a number"))
            }),
        }
    }

    fn input(&self) -> Option<i64> {
        self.input
    }

    fn params(&self) -> Option<i64> {
        self.params
    }

    fn transform<F>(&self, f: F) -> i64
    where
        F: FnOnce(&i64, Option<&i64>) -> i64,
    {
        f(&self.input.expect("transform needs an input"), self.params.as_ref())
    }

    fn output(&self) -> Option<Result<i64, Refused>> {
        self.output.clone()
    }
}

/// A fixture that keeps the stock `params`.
#[derive(Clone)]
struct Plain {
    input: Option<String>,
}

impl Fixture for Plain {
    type Input = String;
    type Output = ();
    type Error = Refused;
    type TransformParams = ();

    fn built(data_def: TestDef<Refused>) -> Self {
        Self::from_data(&data_def)
    }

    fn input_value(&self) -> Option<String> {
        self.input.clone()
    }

    fn output_value(&self) -> Option<Result<(), Refused>> {
        None
    }

    fn from_data(data_def: &TestDef<Refused>) -> Self {
        Self { input: data_def.input.as_ref().and_then(Value::as_str).map(str::to_owned) }
    }

    fn input(&self) -> Option<String> {
        self.input.clone()
    }

    fn transform<F>(&self, f: F) -> String
    where
        F: FnOnce(&String, Option<&()>) -> String,
    {
        f(&self.input.clone().expect("transform needs an input"), self.params().as_ref())
    }

    fn output(&self) -> Option<Result<(), Refused>> {
        None
    }
}

fn mock(path: &str) -> Fetch {
    Fetch {
        authority: "example.com".to_string(),
        method: Method::POST,
        path: path.to_string(),
        request: Some("vehicle=1".to_string()),
        response: Response { status: 201, body: Value::from(path) },
    }
}

fn definition(input: Option<i64>, params: Option<i64>) -> TestDef<Refused> {
    TestDef {
        input: input.map(Value::from),
        params: params.map(Value::from),
        http_requests: Some(vec![mock("/first"), mock("/second")]),
        output: Some(Ok(Value::from(7))),
    }
}

fn assert_mocks_copied(prepared: &PreparedTestCase<Counter>) {
    let mocks = prepared.http_requests.as_ref().expect("mocks should be copied");
    assert_eq!(mocks.len(), 2);
    assert_eq!(mocks[0].path, "/first");
    assert_eq!(mocks[1].path, "/second");
    for fetch in mocks {
        assert_eq!(fetch.authority, "example.com");
        assert_eq!(fetch.method, Method::POST);
        assert_eq!(fetch.request.as_deref(), Some("vehicle=1"));
        assert_eq!(fetch.response.status, 201);
        assert_eq!(fetch.response.body, fetch.path.as_str());
    }
}

#[test]
fn prepare_transforms_the_input_with_the_params() {
    let case = TestCase::<Counter>::new(definition(Some(40), Some(2)));
    let prepared = case.prepare(|input, params| input + params.copied().unwrap_or(0));
    assert_eq!(prepared.input, Some(42));
    assert_eq!(prepared.output, Some(Ok(7)));
    assert_mocks_copied(&prepared);
}

#[test]
fn prepare_hands_no_params_where_the_fixture_has_none() {
    let case = TestCase::<Counter>::new(definition(Some(40), None));
    let prepared = case.prepare(|input, params| {
        assert!(params.is_none());
        input * 2
    });
    assert_eq!(prepared.input, Some(80));
}

#[test]
fn prepare_without_input_never_calls_the_transform() {
    let called = Cell::new(false);
    let case = TestCase::<Counter>::new(definition(None, Some(2)));
    let prepared = case.prepare(|input, _params| {
        called.set(true);
        *input
    });
    assert!(!called.get());
    assert_eq!(prepared.input, None);
    assert_eq!(prepared.output, Some(Ok(7)));
    assert_mocks_copied(&prepared);
}

#[test]
fn prepare_without_input_accepts_a_transform_that_cannot_run() {
    let case = TestCase::<Counter>::new(definition(None, None));
    let prepared = case.prepare(|_input, _params| panic!("transform must not run"));
    assert_eq!(prepared.input, None);
    assert_mocks_copied(&prepared);
}

#[test]
fn prepare_keeps_an_expected_error() {
    let mut def = definition(Some(1), None);
    def.output = Some(Err(Refused("not allowed".to_string())));
    let prepared = TestCase::<Counter>::new(def).prepare(|input, _params| *input);
    assert_eq!(prepared.input, Some(1));
    assert_eq!(prepared.output, Some(Err(Refused("not allowed".to_string()))));
}

#[test]
fn prepare_keeps_absent_mocks_and_output_absent() {
    let def = TestDef::<Refused> { input: Some(Value::from(5)), params: None, http_requests: None, output: None };
    let prepared = TestCase::<Counter>::new(def).prepare(|input, _params| input + 1);
    assert_eq!(prepared.input, Some(6));
    assert!(prepared.http_requests.is_none());
    assert_eq!(prepared.output, None);
}

#[test]
fn prepare_twice_gives_equal_results() {
    let case = TestCase::<Counter>::new(definition(Some(40), Some(2)));
    let first = case.prepare(|input, params| input + params.copied().unwrap_or(0));
    let second = case.prepare(|input, params| input + params.copied().unwrap_or(0));
    assert_eq!(first.input, second.input);
    assert_eq!(first.output, second.output);
    assert_mocks_copied(&first);
    assert_mocks_copied(&second);

    let other = TestCase::<Counter>::new(definition(Some(40), Some(2)));
    let third = other.prepare(|input, params| input + params.copied().unwrap_or(0));
    assert_eq!(first.input, third.input);
    assert_eq!(first.output, third.output);
    assert_mocks_copied(&third);
}

#[test]
fn prepared_mocks_are_an_independent_copy() {
    let case = TestCase::<Counter>::new(definition(Some(1), None));
    let mut first = case.prepare(|input, _params| *input);
    first.http_requests.as_mut().expect("mocks should be copied")[0].path = "/changed".to_string();
    first.http_requests.as_mut().expect("mocks should be copied").pop();
    let second = case.prepare(|input, _params| *input);
    assert_mocks_copied(&second);
}

#[test]
fn stock_params_are_none() {
    let def = TestDef::<Refused> {
        input: Some(Value::from("in")),
        params: Some(Value::from(3)),
        http_requests: None,
        output: None,
    };
    let fixture = Plain::from_data(&def);
    assert_eq!(fixture.params(), None);
    let prepared = TestCase::<Plain>::new(def).prepare(|input, params| {
        assert!(params.is_none());
        format!("{input}!")
    });
    assert_eq!(prepared.input, Some("in!".to_string()));
    assert!(prepared.output.is_none());
}

#[test]
fn test_def_can_be_cloned() {
    let mut def = definition(Some(40), Some(2));
    let copy = def.clone();
    def.http_requests = None;
    def.input = None;
    let prepared = TestCase::<Counter>::new(copy).prepare(|input, _params| *input);
    assert_eq!(prepared.input, Some(40));
    assert_eq!(prepared.output, Some(Ok(7)));
    assert_mocks_copied(&prepared);

    let mut failing = definition(None, None);
    failing.output = Some(Err(Refused("no".to_string())));
    let prepared = TestCase::<Counter>::new(failing.clone()).prepare(|input, _params| *input);
    assert_eq!(prepared.output, Some(Err(Refused("no".to_string()))));
}

#[test]
fn prepared_test_case_can_be_cloned() {
    let case = TestCase::<Counter>::new(definition(Some(40), Some(2)));
    let prepared = case.prepare(|input, _params| *input);
    let copy = prepared.clone();
    assert_eq!(copy.input, Some(40));
    assert_eq!(copy.output, Some(Ok(7)));
    assert_mocks_copied(&copy);
}
