//! Why a request was not served, and how the reason is put into words.

use vstd::prelude::*;
use vstd::string::StringExecFns;

use crate::request::Key;
use crate::request::Lookup;
use crate::text::contains_text;
use crate::text::lemma_contains_part;
use crate::text::quoted;
use crate::text::quoted_text;

verus! {

/// What a [`FetchError`] is, with its texts as sequences of characters.
pub enum FetchErrorView {
    /// The method token names no supported method.
    UnsupportedMethod { method: Seq<char> },
    /// Neither a URI authority nor a `Host` header.
    MissingAuthority,
    /// No entry is keyed on `key`.
    NoMatchFound { key: Key },
    /// No response can carry `status`.
    ResponseBuildFailure { status: u16 },
}

/// Why a request was not served. Each of these is a matter of the fixture
/// table or of the request itself: the same request meets the same error
/// every time.
#[derive(Debug, PartialEq, Eq)]
pub enum FetchError {
    /// The request's method is outside the supported set.
    UnsupportedMethod {
        /// The method token of the request.
        method: String,
    },
    /// The request has neither a URI authority nor a `Host` header.
    MissingAuthority,
    /// No configured entry is keyed on the values derived from the request.
    NoMatchFound {
        /// The values derived from the request.
        lookup: Lookup,
    },
    /// The matched entry configures a status code that no response can carry.
    ResponseBuildFailure {
        /// The configured status code.
        status: u16,
    },
}

impl View for FetchError {
    type V = FetchErrorView;

    open spec fn view(&self) -> FetchErrorView {
        match self {
            FetchError::UnsupportedMethod { method } => FetchErrorView::UnsupportedMethod {
                method: method@,
            },
            FetchError::MissingAuthority => FetchErrorView::MissingAuthority,
            FetchError::NoMatchFound { lookup } => FetchErrorView::NoMatchFound { key: lookup@ },
            FetchError::ResponseBuildFailure { status } => FetchErrorView::ResponseBuildFailure {
                status: *status,
            },
        }
    }
}

impl Clone for FetchError {
    fn clone(&self) -> (copy: Self)
        ensures
            copy == *self,
    {
        match self {
            FetchError::UnsupportedMethod { method } => FetchError::UnsupportedMethod {
                method: method.clone(),
            },
            FetchError::MissingAuthority => FetchError::MissingAuthority,
            FetchError::NoMatchFound { lookup } => FetchError::NoMatchFound {
                lookup: lookup.clone(),
            },
            FetchError::ResponseBuildFailure { status } => FetchError::ResponseBuildFailure {
                status: *status,
            },
        }
    }
}

/// The view of a result: the view of what it holds, on either side.
pub open spec fn outcome<T: View, E: View>(result: Result<T, E>) -> Result<T::V, E::V> {
    match result {
        Ok(value) => Ok(value@),
        Err(error) => Err(error@),
    }
}

/// How an optional text is written in a message, given the quoted form of
/// the text: `None`, or the quoted form inside `Some(..)`.
pub open spec fn optional_written(quoted: Option<Seq<char>>) -> Seq<char> {
    match quoted {
        None => "None"@,
        Some(quoted) => "Some("@ + quoted + ")"@,
    }
}

/// How an optional text is written in a message: `None`, or the text, quoted,
/// inside `Some(..)`.
pub open spec fn optional_text(text: Option<Seq<char>>) -> Seq<char> {
    optional_written(
        match text {
            None => None,
            Some(text) => Some(quoted_text(text)),
        },
    )
}

impl Key {
    /// The four values as a message names them, with the discriminator
    /// written as `request`.
    pub open spec fn described_with(self, request: Seq<char>) -> Seq<char> {
        "method="@ + self.method.name_text() + ", authority="@ + self.authority + ", path="@
            + self.path + ", request="@ + request
    }

    /// The four values as a message names them.
    pub open spec fn described(self) -> Seq<char> {
        self.described_with(optional_text(self.request))
    }
}

impl FetchErrorView {
    /// The message of an error.
    pub open spec fn message_text(self) -> Seq<char> {
        match self {
            FetchErrorView::UnsupportedMethod { method } => "unsupported HTTP method: "@ + method,
            FetchErrorView::MissingAuthority => "request missing authority or host header"@,
            FetchErrorView::NoMatchFound { key } => "no fetch configured for "@ + key.described(),
            FetchErrorView::ResponseBuildFailure { .. } => "invalid status code"@,
        }
    }
}

impl Lookup {
    /// Names the four values, for a message. The discriminator is written
    /// from its quoted form: `quoted` holds that form where the lookup has a
    /// discriminator, and nothing where it has none.
    pub fn describe_with(&self, quoted: Option<&str>) -> (text: String)
        ensures
            text@ == self@.described_with(
                optional_written(
                    match quoted {
                        None => None,
                        Some(quoted) => Some(quoted@),
                    },
                ),
            ),
    {
        let mut text = String::from_str("method=");
        text.append(self.method.name());
        text.append(", authority=");
        text.append(self.authority.as_str());
        text.append(", path=");
        text.append(self.path.as_str());
        text.append(", request=");
        match quoted {
            None => {
                text.append("None");
            },
            Some(quoted) => {
                text.append("Some(");
                text.append(quoted);
                text.append(")");
                assert(text@ =~= self@.described_with("Some("@ + quoted@ + ")"@));
            },
        }
        text
    }

    /// Names the four values, for a message.
    pub fn describe(&self) -> (text: String)
        ensures
            text@ == self@.described(),
    {
        match &self.request {
            None => self.describe_with(None),
            Some(request) => {
                let quoted = quoted(request.as_str());
                self.describe_with(Some(quoted.as_str()))
            },
        }
    }
}

impl FetchError {
    /// The message of the error, for a reader who has to find the entry that
    /// is missing or wrong.
    pub fn message(&self) -> (text: String)
        ensures
            text@ == self@.message_text(),
    {
        match self {
            FetchError::UnsupportedMethod { method } => {
                String::from_str("unsupported HTTP method: ").concat(method.as_str())
            },
            FetchError::MissingAuthority => String::from_str(
                "request missing authority or host header",
            ),
            FetchError::NoMatchFound { lookup } => {
                String::from_str("no fetch configured for ").concat(lookup.describe().as_str())
            },
            FetchError::ResponseBuildFailure { .. } => String::from_str("invalid status code"),
        }
    }
}

/// The message of an unmatched request says "no fetch configured" and names
/// the method, the authority, the path and the discriminator looked for.
pub proof fn lemma_no_match_message(key: Key)
    ensures
        ({
            let message = (FetchErrorView::NoMatchFound { key }).message_text();
            &&& contains_text(message, "no fetch configured"@)
            &&& contains_text(message, key.method.name_text())
            &&& contains_text(message, key.authority)
            &&& contains_text(message, key.path)
            &&& contains_text(message, optional_text(key.request))
        }),
{
    let message = (FetchErrorView::NoMatchFound { key }).message_text();
    let head = "no fetch configured for "@;
    let method = "method="@;
    let authority = ", authority="@;
    let path = ", path="@;
    let request = ", request="@;
    let name = key.method.name_text();
    let last = optional_text(key.request);
    assert(contains_text(message, "no fetch configured"@)) by {
        reveal_strlit("no fetch configured for ");
        reveal_strlit("no fetch configured");
        let rest = " for "@ + key.described();
        reveal_strlit(" for ");
        assert(message =~= Seq::<char>::empty() + "no fetch configured"@ + rest);
        lemma_contains_part(Seq::<char>::empty(), "no fetch configured"@, rest);
    }
    assert(contains_text(message, name)) by {
        let after = authority + key.authority + path + key.path + request + last;
        assert(message =~= (head + method) + name + after);
        lemma_contains_part(head + method, name, after);
    }
    assert(contains_text(message, key.authority)) by {
        let after = path + key.path + request + last;
        assert(message =~= (head + method + name + authority) + key.authority + after);
        lemma_contains_part(head + method + name + authority, key.authority, after);
    }
    assert(contains_text(message, key.path)) by {
        let before = head + method + name + authority + key.authority + path;
        let after = request + last;
        assert(message =~= before + key.path + after);
        lemma_contains_part(before, key.path, after);
    }
    assert(contains_text(message, last)) by {
        let before = head + method + name + authority + key.authority + path + key.path + request;
        assert(message =~= before + last + Seq::<char>::empty());
        lemma_contains_part(before, last, Seq::<char>::empty());
    }
}

} // verus!
