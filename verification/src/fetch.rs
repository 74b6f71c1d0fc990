//! Mock HTTP responses for test fixtures.
//!
//! A [`Fetcher`] holds an ordered table of [`Fetch`] entries. Serving a
//! request derives the four values an entry is keyed on, takes the first
//! entry keyed on exactly those values, and builds the reply that the entry
//! configures. Nothing here touches the network.

use vstd::prelude::*;
use vstd::utf8::encode_utf8;

use crate::error::outcome;
use crate::error::FetchError;
use crate::error::FetchErrorView;
use crate::json::compact_text;
use crate::json::empty_string;
use crate::json::json_text;
use crate::reply::reply_with;
use crate::reply::Reply;
use crate::reply::ReplyView;
use crate::request::Key;
use crate::request::Lookup;
use crate::request::Request;
use crate::request::RequestView;
use crate::text::copy_text;
use crate::text::same_text;

verus! {

/// Supported HTTP verbs (methods) for fetch requests.
#[derive(Clone, Copy, Debug, PartialEq, Eq, Structural)]
pub enum Method {
    /// GET method.
    GET,
    /// POST method.
    POST,
    /// PUT method.
    PUT,
    /// DELETE method.
    DELETE,
    /// PATCH method.
    PATCH,
}

impl Method {
    /// The token that names the method on the wire.
    pub open spec fn name_text(self) -> Seq<char> {
        match self {
            Method::GET => "GET"@,
            Method::POST => "POST"@,
            Method::PUT => "PUT"@,
            Method::DELETE => "DELETE"@,
            Method::PATCH => "PATCH"@,
        }
    }

    /// The method that a token names, if it names a supported one. Tokens are
    /// compared exactly, so `"get"` names none.
    pub open spec fn named(token: Seq<char>) -> Option<Method> {
        if token == "GET"@ {
            Some(Method::GET)
        } else if token == "POST"@ {
            Some(Method::POST)
        } else if token == "PUT"@ {
            Some(Method::PUT)
        } else if token == "DELETE"@ {
            Some(Method::DELETE)
        } else if token == "PATCH"@ {
            Some(Method::PATCH)
        } else {
            None
        }
    }

    /// The token that names the method.
    pub fn name(&self) -> (token: &'static str)
        ensures
            token@ == self.name_text(),
    {
        match self {
            Method::GET => "GET",
            Method::POST => "POST",
            Method::PUT => "PUT",
            Method::DELETE => "DELETE",
            Method::PATCH => "PATCH",
        }
    }

    /// Maps a method token to the closed set of supported methods.
    pub fn from_name(token: &str) -> (method: Option<Method>)
        ensures
            method == Method::named(token@),
    {
        if same_text(token, "GET") {
            Some(Method::GET)
        } else if same_text(token, "POST") {
            Some(Method::POST)
        } else if same_text(token, "PUT") {
            Some(Method::PUT)
        } else if same_text(token, "DELETE") {
            Some(Method::DELETE)
        } else if same_text(token, "PATCH") {
            Some(Method::PATCH)
        } else {
            None
        }
    }

    /// Every method is named by its own token, and by no other method's.
    pub proof fn lemma_name_round_trip(self)
        ensures
            Method::named(self.name_text()) == Some(self),
    {
        reveal_strlit("GET");
        reveal_strlit("POST");
        reveal_strlit("PUT");
        reveal_strlit("DELETE");
        reveal_strlit("PATCH");
        assert("GET"@.len() == 3 && "PUT"@.len() == 3 && "POST"@.len() == 4 && "PATCH"@.len() == 5
            && "DELETE"@.len() == 6);
        assert("GET"@[0] == 'G' && "PUT"@[0] == 'P');
    }
}

/// Mock HTTP response for fetch requests.
#[derive(Debug)]
pub struct Response {
    /// HTTP status code.
    ///
    /// Defaults to 200 so can be omitted in test fixtures unless a specific
    /// status is asserted.
    pub status: u16,
    /// Response body.
    ///
    /// This is a JSON value that the test is expected to deserialize as
    /// needed. Defaults to an empty string for tests that do not require
    /// asserting on response body contents.
    pub body: serde_json::Value,
}

/// What a [`Response`] is: its status, and its body as compact JSON text.
pub struct ResponseView {
    /// Status code.
    pub status: u16,
    /// Compact JSON text of the body.
    pub body: Seq<char>,
}

impl View for Response {
    type V = ResponseView;

    open spec fn view(&self) -> ResponseView {
        ResponseView { status: self.status, body: json_text(self.body) }
    }
}

impl Default for Response {
    /// Status 200, and the empty JSON string as the body.
    fn default() -> (response: Self)
        ensures
            response@ == (ResponseView { status: 200, body: "\"\""@ }),
    {
        Self { status: 200, body: empty_string() }
    }
}

impl Clone for Response {
    fn clone(&self) -> (copy: Self)
        ensures
            copy == *self,
    {
        Self { status: self.status, body: self.body.clone() }
    }
}

impl ResponseView {
    /// The reply that this response configures: its status, and the compact
    /// JSON text of its body as the payload.
    pub open spec fn reply(self) -> Result<ReplyView, FetchErrorView> {
        reply_with(self.status, self.body)
    }
}

impl Response {
    /// Builds the reply that this response configures.
    pub fn reply(&self) -> (result: Result<Reply, FetchError>)
        ensures
            outcome(result) == self@.reply(),
    {
        Reply::build(self.status, compact_text(&self.body))
    }
}

/// What a [`Fetch`] entry is, with its texts as sequences of characters.
pub struct FetchView {
    /// Authority to match.
    pub authority: Seq<char>,
    /// Method to match.
    pub method: Method,
    /// Path to match.
    pub path: Seq<char>,
    /// Discriminator to match, or none.
    pub request: Option<Seq<char>>,
    /// Response to give on a match.
    pub response: ResponseView,
}

/// Configuration for mocking fetch requests.
#[derive(Debug)]
pub struct Fetch {
    /// Authority (host) to match for mock fetch requests.
    ///
    /// Defaults to "example.com".
    pub authority: String,
    /// Method to match for mock fetch requests.
    ///
    /// Defaults to GET.
    pub method: Method,
    /// Path to match for mock fetch requests, not including query parameters.
    ///
    /// Defaults to "/".
    pub path: String,
    /// String to uniquely identify a fetch request.
    ///
    /// This simulates a query string or body content to differentiate requests
    /// so a serialized representation of those could be used in test fixtures,
    /// or some abbreviated identifier.
    pub request: Option<String>,
    /// Expected response if all the other fields match.
    pub response: Response,
}

impl View for Fetch {
    type V = FetchView;

    open spec fn view(&self) -> FetchView {
        FetchView {
            authority: self.authority@,
            method: self.method,
            path: self.path@,
            request: self.request.deep_view(),
            response: self.response@,
        }
    }
}

impl DeepView for Fetch {
    type V = FetchView;

    open spec fn deep_view(&self) -> FetchView {
        self@
    }
}

/// Default implementation for Fetch to fill in unspecified fields from test
/// fixtures.
impl Default for Fetch {
    fn default() -> (fetch: Self)
        ensures
            fetch@ == (FetchView {
                authority: "example.com"@,
                method: Method::GET,
                path: "/"@,
                request: None,
                response: ResponseView { status: 200, body: "\"\""@ },
            }),
    {
        Self {
            authority: "example.com".to_owned(),
            method: Method::GET,
            path: "/".to_owned(),
            request: None,
            response: Response::default(),
        }
    }
}

impl Clone for Fetch {
    fn clone(&self) -> (copy: Self)
        ensures
            copy == *self,
    {
        Self {
            authority: self.authority.clone(),
            method: self.method,
            path: self.path.clone(),
            request: copy_text(&self.request),
            response: self.response.clone(),
        }
    }
}

impl FetchView {
    /// The values this entry is keyed on.
    pub open spec fn key(self) -> Key {
        Key {
            authority: self.authority,
            method: self.method,
            path: self.path,
            request: self.request,
        }
    }
}

impl Fetch {
    /// Whether this entry is keyed on exactly the values of `lookup`: the
    /// same authority, method and path, and the same discriminator, where an
    /// absent one equals only an absent one.
    pub fn matches(&self, lookup: &Lookup) -> (hit: bool)
        ensures
            hit == (self@.key() == lookup@),
    {
        let same_request = match (&self.request, &lookup.request) {
            (Some(mine), Some(theirs)) => *mine == *theirs,
            (None, None) => true,
            _ => false,
        };
        self.authority == lookup.authority && self.method == lookup.method && self.path
            == lookup.path && same_request
    }
}

/// `at` is the place of the first entry, in declared order, keyed on `key`.
pub open spec fn is_first_match(entries: Seq<FetchView>, key: Key, at: int) -> bool {
    &&& 0 <= at < entries.len()
    &&& entries[at].key() == key
    &&& forall|earlier: int| 0 <= earlier < at ==> entries[earlier].key() != key
}

/// The place of the first entry keyed on `key`, if any entry is.
pub open spec fn first_match(entries: Seq<FetchView>, key: Key) -> Option<int> {
    if exists|at: int| is_first_match(entries, key, at) {
        Some(choose|at: int| is_first_match(entries, key, at))
    } else {
        None
    }
}

/// At most one place is that of the first match, so `first_match` names it.
pub proof fn lemma_first_match_is(entries: Seq<FetchView>, key: Key, at: int)
    requires
        is_first_match(entries, key, at),
    ensures
        first_match(entries, key) == Some(at),
{
    let chosen = choose|at: int| is_first_match(entries, key, at);
    assert(is_first_match(entries, key, chosen));
    if chosen < at {
        assert(entries[chosen].key() != key);
    } else if at < chosen {
        assert(entries[at].key() != key);
    }
}

/// Where no entry is keyed on `key`, there is no first match.
pub proof fn lemma_no_match(entries: Seq<FetchView>, key: Key)
    requires
        forall|at: int| 0 <= at < entries.len() ==> entries[at].key() != key,
    ensures
        first_match(entries, key) is None,
{
}

/// What a table of entries serves for a request: the reply configured by the
/// first entry keyed on the request's derived values, or the reason why there
/// is none.
pub open spec fn served(entries: Seq<FetchView>, request: RequestView) -> Result<
    ReplyView,
    FetchErrorView,
> {
    match request.key() {
        Err(error) => Err(error),
        Ok(key) => match first_match(entries, key) {
            None => Err(FetchErrorView::NoMatchFound { key }),
            Some(at) => entries[at].response.reply(),
        },
    }
}

/// Collection of fetch request configurations, in the order in which they
/// are tried.
#[derive(Debug)]
pub struct Fetcher {
    /// List of fetch request configurations.
    pub fetches: Vec<Fetch>,
}

impl View for Fetcher {
    type V = Seq<FetchView>;

    open spec fn view(&self) -> Seq<FetchView> {
        self.fetches.deep_view()
    }
}

impl Clone for Fetcher {
    fn clone(&self) -> (copy: Self)
        ensures
            copy.fetches@ == self.fetches@,
            copy@ == self@,
    {
        Fetcher::new(self.fetches.as_slice())
    }
}

impl Fetcher {
    /// Create a new Fetcher with the given fetch request configurations.
    #[must_use]
    pub fn new(fetches: &[Fetch]) -> (fetcher: Self)
        ensures
            fetcher.fetches@ == fetches@,
            fetcher@ == fetches.deep_view(),
    {
        let mut copies: Vec<Fetch> = Vec::new();
        let mut i: usize = 0;
        while i < fetches.len()
            invariant
                i <= fetches@.len(),
                copies@ == fetches@.subrange(0, i as int),
            decreases fetches@.len() - i,
        {
            copies.push(fetches[i].clone());
            i = i + 1;
            assert(copies@ =~= fetches@.subrange(0, i as int));
        }
        assert(fetches@.subrange(0, i as int) =~= fetches@);
        Self { fetches: copies }
    }

    /// The place of the first entry keyed on the values of `lookup`.
    pub fn find(&self, lookup: &Lookup) -> (found: Option<usize>)
        ensures
            match found {
                Some(at) => first_match(self@, lookup@) == Some(at as int),
                None => first_match(self@, lookup@) is None,
            },
    {
        let mut i: usize = 0;
        while i < self.fetches.len()
            invariant
                i <= self.fetches@.len(),
                self@.len() == self.fetches@.len(),
                forall|k: int| 0 <= k < i ==> self@[k].key() != lookup@,
            decreases self.fetches@.len() - i,
        {
            if self.fetches[i].matches(lookup) {
                proof {
                    lemma_first_match_is(self@, lookup@, i as int);
                }
                return Some(i);
            }
            i = i + 1;
        }
        proof {
            lemma_no_match(self@, lookup@);
        }
        None
    }

    /// Simulate fetching a request by finding a matching fetch configuration
    /// and returning the response.
    ///
    /// # Errors
    ///
    /// Returns an error when the request method is unsupported, the authority
    /// or host header is missing, no matching fetch configuration is found,
    /// or the matching configuration holds a status code that no response can
    /// carry.
    pub fn fetch(&self, request: &Request) -> (result: Result<Reply, FetchError>)
        ensures
            outcome(result) == served(self@, request@),
    {
        let lookup = match request.lookup() {
            Ok(lookup) => lookup,
            Err(error) => {
                return Err(error);
            },
        };
        match self.find(&lookup) {
            Some(at) => self.fetches[at].response.reply(),
            None => Err(FetchError::NoMatchFound { lookup }),
        }
    }
}

/// Where some entry is keyed on `key`, one of them is the first.
pub proof fn lemma_first_match_exists(entries: Seq<FetchView>, key: Key, at: int) -> (first: int)
    requires
        0 <= at < entries.len(),
        entries[at].key() == key,
    ensures
        0 <= first <= at,
        is_first_match(entries, key, first),
        first_match(entries, key) == Some(first),
    decreases at,
{
    if exists|earlier: int| 0 <= earlier < at && entries[earlier].key() == key {
        let earlier = choose|earlier: int| 0 <= earlier < at && entries[earlier].key() == key;
        lemma_first_match_exists(entries, key, earlier)
    } else {
        lemma_first_match_is(entries, key, at);
        at
    }
}

/// First match wins: where an entry is keyed on the values derived from the
/// request, the request is served from the first such entry in declared
/// order, and from no other.
pub proof fn lemma_first_match_wins(
    entries: Seq<FetchView>,
    request: RequestView,
    key: Key,
    at: int,
) -> (first: int)
    requires
        request.key() == Ok::<Key, FetchErrorView>(key),
        0 <= at < entries.len(),
        entries[at].key() == key,
    ensures
        0 <= first <= at,
        entries[first].key() == key,
        forall|earlier: int| 0 <= earlier < first ==> entries[earlier].key() != key,
        served(entries, request) == entries[first].response.reply(),
{
    lemma_first_match_exists(entries, key, at)
}

/// An entry behind one that is keyed on the same values is never reached:
/// whatever stands in its place, the request is served the same.
pub proof fn lemma_later_match_unreachable(
    entries: Seq<FetchView>,
    request: RequestView,
    key: Key,
    at: int,
    later: int,
    other: FetchView,
)
    requires
        request.key() == Ok::<Key, FetchErrorView>(key),
        0 <= at < later < entries.len(),
        entries[at].key() == key,
    ensures
        served(entries.update(later, other), request) == served(entries, request),
{
    let first = lemma_first_match_exists(entries, key, at);
    let changed = entries.update(later, other);
    assert(is_first_match(changed, key, first));
    lemma_first_match_is(changed, key, first);
}

/// No two entries of a table are keyed on the same values. A table should be
/// so, and none is held to it: duplicates are resolved by declared order.
pub open spec fn keys_unique(entries: Seq<FetchView>) -> bool {
    forall|i: int, j: int|
        0 <= i < j < entries.len() ==> #[trigger] entries[i].key() != #[trigger] entries[j].key()
}

/// In a table without duplicate keys every entry can be reached: a request
/// is served from whichever entry is keyed on its derived values.
pub proof fn lemma_unique_key_served(
    entries: Seq<FetchView>,
    request: RequestView,
    key: Key,
    at: int,
)
    requires
        keys_unique(entries),
        request.key() == Ok::<Key, FetchErrorView>(key),
        0 <= at < entries.len(),
        entries[at].key() == key,
    ensures
        served(entries, request) == entries[at].response.reply(),
{
    let first = lemma_first_match_exists(entries, key, at);
    if first < at {
        assert(entries[first].key() != entries[at].key());
    }
}

/// The discriminator is compared by presence and by value: an entry keyed on
/// the values derived from a request holds the request's query string as its
/// discriminator, and holds none where the request has none.
pub proof fn lemma_discriminator_decides(entry: FetchView, request: RequestView, key: Key)
    requires
        request.key() == Ok::<Key, FetchErrorView>(key),
        entry.key() == key,
    ensures
        entry.request == request.query,
{
}

/// Host header fallback: a request whose URI has no authority is looked up
/// under the value of its `Host` header.
pub proof fn lemma_host_header_fallback(request: RequestView, host: Seq<char>)
    requires
        Method::named(request.method) is Some,
        request.authority is None,
        request.host == Some(host),
    ensures
        request.key() is Ok,
        request.key()->Ok_0.authority == host,
{
}

/// Body round trip: a served reply carries the status of the first entry
/// keyed on the request's derived values, and the compact JSON text of that
/// entry's body, byte for byte.
pub proof fn lemma_served_reply(entries: Seq<FetchView>, request: RequestView, reply: ReplyView) -> (at: int)
    requires
        served(entries, request) == Ok::<ReplyView, FetchErrorView>(reply),
    ensures
        request.key() is Ok,
        is_first_match(entries, request.key()->Ok_0, at),
        reply.status == entries[at].response.status,
        reply.body == encode_utf8(entries[at].response.body),
{
    let key = request.key()->Ok_0;
    first_match(entries, key)->Some_0
}

} // verus!
