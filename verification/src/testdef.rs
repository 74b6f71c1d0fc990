//! Raw fixture data, as a test definition file holds it.

use vstd::prelude::*;

use crate::fetch::Fetch;

verus! {

/// One test definition: the raw data from which a fixture builds its typed
/// values, and the mock requests that the handler under test may make.
///
/// The raw values are opaque here; only a fixture reads them.
#[derive(Debug)]
pub struct TestDef<E> {
    /// Raw input of the handler under test, if the test executes anything.
    pub input: Option<serde_json::Value>,
    /// Raw context for transforming the input, such as a reference time.
    pub params: Option<serde_json::Value>,
    /// Mock fetch requests that the handler under test may make.
    pub http_requests: Option<Vec<Fetch>>,
    /// Raw expected output, or the error that the handler is expected to
    /// fail with.
    pub output: Option<Result<serde_json::Value, E>>,
}

/// A copy of an optional raw value.
fn copy_raw(value: &Option<serde_json::Value>) -> (copy: Option<serde_json::Value>)
    ensures
        copy == *value,
{
    match value {
        Some(value) => Some(value.clone()),
        None => None,
    }
}

impl<E: Clone> Clone for TestDef<E> {
    /// The copy holds the same raw values and the same mock requests; an
    /// expected error is copied as its own `clone` copies it.
    fn clone(&self) -> (copy: Self)
        ensures
            copy.input == self.input,
            copy.params == self.params,
            copy.http_requests.deep_view() == self.http_requests.deep_view(),
            match (self.output, copy.output) {
                (None, None) => true,
                (Some(Ok(expected)), Some(Ok(copied))) => copied == expected,
                (Some(Err(expected)), Some(Err(copied))) => cloned(expected, copied),
                _ => false,
            },
    {
        let output = match &self.output {
            None => None,
            Some(Ok(value)) => Some(Ok(value.clone())),
            Some(Err(error)) => Some(Err(error.clone())),
        };
        Self {
            input: copy_raw(&self.input),
            params: copy_raw(&self.params),
            http_requests: self.http_requests.clone(),
            output,
        }
    }
}

} // verus!
