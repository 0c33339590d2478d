//! What a handler hands back: either a statement to run first, or the answer
//! to send.

use vstd::prelude::*;
use crate::models::api_response::ApiResponse;
use crate::repositories::statement::Statement;

verus! {

/// An answer: the HTTP status code and the envelope that is its JSON body.
#[derive(Debug, Clone, PartialEq, Eq)]
pub struct HttpReply<T> {
    pub code: u16,
    pub body: ApiResponse<T>,
}

/// The next move of a handler.
#[derive(Debug, Clone, PartialEq, Eq)]
pub enum Handling<T> {
    /// Run this statement, then come back with what the database said.
    Run(Statement),
    /// Send this answer; the request is done.
    Respond(HttpReply<T>),
}

impl<T> HttpReply<T> {
    /// True of a 200 answer with a success envelope and this message.
    pub open spec fn is_ok(&self, message: Seq<char>) -> bool {
        &&& self.code == 200
        &&& self.body.status@ == "success"@
        &&& self.body.message@ == message
    }

    /// True of an answer with this code, an error envelope with this message,
    /// and no payload.
    pub open spec fn is_failure(&self, code: u16, message: Seq<char>) -> bool {
        &&& self.code == code
        &&& self.body.status@ == "error"@
        &&& self.body.message@ == message
        &&& self.body.data is None
    }

    /// True of an answer with this code, an error envelope whose message
    /// begins with `head`, and no payload.
    pub open spec fn is_failure_with(&self, code: u16, head: Seq<char>) -> bool {
        &&& self.code == code
        &&& self.body.status@ == "error"@
        &&& head.is_prefix_of(self.body.message@)
        &&& self.body.data is None
    }

    /// 200, with a payload.
    pub fn ok(message: String, data: T) -> (r: Self)
        ensures
            r.is_ok(message@),
            r.body.data == Some(data),
    {
        HttpReply { code: 200, body: ApiResponse::success(message, data) }
    }

    /// 200, without a payload.
    pub fn done(message: String) -> (r: Self)
        ensures
            r.is_ok(message@),
            r.body.data is None,
    {
        HttpReply { code: 200, body: ApiResponse::done(message) }
    }

    /// An error answer with the given status code.
    pub fn failure(code: u16, message: String) -> (r: Self)
        ensures
            r.is_failure(code, message@),
    {
        HttpReply { code, body: ApiResponse::error(message) }
    }
}

} // verus!
