//! Requests, and the values by which they are looked up.
//!
//! A [`Request`] holds what the mock reads of an outbound request. From it
//! come the four values of a [`Lookup`]: the method, the authority, the path
//! and the discriminator, which is the query string.

use vstd::prelude::*;

use crate::error::outcome;
use crate::error::FetchError;
use crate::error::FetchErrorView;
use crate::fetch::Method;
use crate::text::copy_text;

verus! {

/// The four values an entry is keyed on, and a request is looked up by.
/// Two keys are the same where all four values are: texts character by
/// character, and the discriminator by presence as well as by value.
pub struct Key {
    /// Authority as it is written: the host, with the port where one is
    /// given.
    pub authority: Seq<char>,
    /// One of the supported methods.
    pub method: Method,
    /// Path, without a query string.
    pub path: Seq<char>,
    /// Discriminator: for a request, its query string.
    pub request: Option<Seq<char>>,
}

/// The values derived from a request, by which it is looked up.
#[derive(Debug, PartialEq, Eq)]
pub struct Lookup {
    /// Authority the request is addressed to.
    pub authority: String,
    /// Method of the request.
    pub method: Method,
    /// Path of the request, without the query string.
    pub path: String,
    /// Query string of the request, if it has one.
    pub request: Option<String>,
}

impl View for Lookup {
    type V = Key;

    open spec fn view(&self) -> Key {
        Key {
            authority: self.authority@,
            method: self.method,
            path: self.path@,
            request: self.request.deep_view(),
        }
    }
}

impl Clone for Lookup {
    fn clone(&self) -> (copy: Self)
        ensures
            copy == *self,
    {
        Self {
            authority: self.authority.clone(),
            method: self.method,
            path: self.path.clone(),
            request: copy_text(&self.request),
        }
    }
}

/// What a [`Request`] is, with its texts as sequences of characters.
pub struct RequestView {
    /// Method token.
    pub method: Seq<char>,
    /// Authority of the URI.
    pub authority: Option<Seq<char>>,
    /// Value of the `Host` header.
    pub host: Option<Seq<char>>,
    /// Path of the URI.
    pub path: Seq<char>,
    /// Query string of the URI.
    pub query: Option<Seq<char>>,
}

/// An outbound request, as far as the mock reads it.
#[derive(Debug, PartialEq, Eq)]
pub struct Request {
    /// Method token, such as `GET`.
    pub method: String,
    /// Authority component of the request URI, if the URI has one.
    pub authority: Option<String>,
    /// Value of the `Host` header, if the request carries a readable one.
    pub host: Option<String>,
    /// Path component of the request URI.
    pub path: String,
    /// Query component of the request URI, if the URI has one.
    pub query: Option<String>,
}

impl View for Request {
    type V = RequestView;

    open spec fn view(&self) -> RequestView {
        RequestView {
            method: self.method@,
            authority: self.authority.deep_view(),
            host: self.host.deep_view(),
            path: self.path@,
            query: self.query.deep_view(),
        }
    }
}

impl Clone for Request {
    fn clone(&self) -> (copy: Self)
        ensures
            copy == *self,
    {
        Self {
            method: self.method.clone(),
            authority: copy_text(&self.authority),
            host: copy_text(&self.host),
            path: self.path.clone(),
            query: copy_text(&self.query),
        }
    }
}

impl RequestView {
    /// The authority a request is addressed to: that of its URI, or else the
    /// value of its `Host` header.
    pub open spec fn target(self) -> Option<Seq<char>> {
        match self.authority {
            Some(authority) => Some(authority),
            None => self.host,
        }
    }

    /// The values a request is looked up by, or why it has none.
    pub open spec fn key(self) -> Result<Key, FetchErrorView> {
        match Method::named(self.method) {
            None => Err(FetchErrorView::UnsupportedMethod { method: self.method }),
            Some(method) => match self.target() {
                None => Err(FetchErrorView::MissingAuthority),
                Some(authority) => Ok(
                    Key { authority, method, path: self.path, request: self.query },
                ),
            },
        }
    }
}

impl Request {
    /// Derives the values by which the request is looked up: the method
    /// mapped to the supported set, the authority of the URI or else the
    /// `Host` header, the path, and the query string as it stands.
    pub fn lookup(&self) -> (result: Result<Lookup, FetchError>)
        ensures
            outcome(result) == self@.key(),
    {
        let method = match Method::from_name(self.method.as_str()) {
            Some(method) => method,
            None => {
                return Err(FetchError::UnsupportedMethod { method: self.method.clone() });
            },
        };
        let authority = match &self.authority {
            Some(authority) => authority.clone(),
            None => match &self.host {
                Some(host) => host.clone(),
                None => {
                    return Err(FetchError::MissingAuthority);
                },
            },
        };
        Ok(Lookup { authority, method, path: self.path.clone(), request: copy_text(&self.query) })
    }
}

} // verus!
