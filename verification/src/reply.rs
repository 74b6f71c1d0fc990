//! Replies: what a served request is answered with.

use vstd::prelude::*;
use vstd::utf8::encode_utf8;

use crate::error::outcome;
use crate::error::FetchError;
use crate::error::FetchErrorView;
use crate::payload::payload_bytes;
use crate::payload::text_payload;
use crate::status::accepted_status;
use crate::status::is_status_code;

verus! {

/// What a [`Reply`] is, with its body as a sequence of bytes.
pub struct ReplyView {
    /// Status code.
    pub status: u16,
    /// Bytes of the payload.
    pub body: Seq<u8>,
}

/// The response handed back for a served request. It carries no headers.
#[derive(Debug, PartialEq, Eq)]
pub struct Reply {
    /// HTTP status code, between 100 and 999.
    pub status: u16,
    /// Payload: the compact JSON text of the configured body, as UTF-8.
    pub body: bytes::Bytes,
}

impl View for Reply {
    type V = ReplyView;

    open spec fn view(&self) -> ReplyView {
        ReplyView { status: self.status, body: payload_bytes(self.body) }
    }
}

/// The reply built from a status code and the text of a body: the text's
/// UTF-8 bytes under that status, where a response can carry the status.
pub open spec fn reply_with(status: u16, text: Seq<char>) -> Result<ReplyView, FetchErrorView> {
    if is_status_code(status) {
        Ok(ReplyView { status, body: encode_utf8(text) })
    } else {
        Err(FetchErrorView::ResponseBuildFailure { status })
    }
}

impl Reply {
    /// Builds the reply for a status code and the compact text of a body.
    pub fn build(status: u16, text: String) -> (result: Result<Reply, FetchError>)
        ensures
            outcome(result) == reply_with(status, text@),
    {
        if accepted_status(status) {
            Ok(Reply { status, body: text_payload(text) })
        } else {
            Err(FetchError::ResponseBuildFailure { status })
        }
    }
}

} // verus!
