//! The messages of the HTTP surface and the replies of the service.
//!
//! A request holds one prompt. A reply is a status code and a JSON object
//! with one member: `answer` on success, `error` on failure.

use crate::json::{json_string, needs_no_escape, quote_json};
use crate::text::{joined, trim_text, trimmed};
use vstd::prelude::*;

verus! {

/// The body of a request: `{"prompt": ..}`.
#[derive(Debug, Clone, PartialEq, Eq)]
pub struct AskRequest {
    pub prompt: String,
}

/// The body of a reply that carries an answer: `{"answer": ..}`.
#[derive(Debug, Clone, PartialEq, Eq)]
pub struct AskResponse {
    pub answer: String,
}

/// The body of a reply that reports a failure: `{"error": ..}`.
#[derive(Debug, Clone, PartialEq, Eq)]
pub struct ErrorResponse {
    pub error: String,
}

/// The body of a reply.
#[derive(Debug, Clone, PartialEq, Eq)]
pub enum ReplyBody {
    Answer(AskResponse),
    Error(ErrorResponse),
}

/// A reply: the HTTP status code and the body.
#[derive(Debug, Clone, PartialEq, Eq)]
pub struct Reply {
    pub status: u16,
    pub body: ReplyBody,
}

/// The body of a reply, its text as a character sequence.
pub enum ReplyBodyView {
    Answer(Seq<char>),
    Error(Seq<char>),
}

/// A reply, its text as a character sequence.
pub struct ReplyView {
    pub status: u16,
    pub body: ReplyBodyView,
}

impl View for ReplyBody {
    type V = ReplyBodyView;

    open spec fn view(&self) -> ReplyBodyView {
        match self {
            ReplyBody::Answer(response) => ReplyBodyView::Answer(response.answer@),
            ReplyBody::Error(response) => ReplyBodyView::Error(response.error@),
        }
    }
}

impl View for Reply {
    type V = ReplyView;

    open spec fn view(&self) -> ReplyView {
        ReplyView { status: self.status, body: self.body@ }
    }
}

/// The reply with status 200 that carries `answer`.
pub open spec fn answer_reply(answer: Seq<char>) -> ReplyView {
    ReplyView { status: 200, body: ReplyBodyView::Answer(answer) }
}

/// The reply with the given status that reports `error`.
pub open spec fn error_reply(status: u16, error: Seq<char>) -> ReplyView {
    ReplyView { status, body: ReplyBodyView::Error(error) }
}

/// The reply to a request whose prompt is empty or blank.
pub open spec fn bad_request() -> ReplyView {
    error_reply(400, "Field \"prompt\" must be a non-empty string"@)
}

/// The reply to a request that matches no route.
pub open spec fn not_found() -> ReplyView {
    error_reply(404, "Not found"@)
}

/// The reply that hands on what a backend returned: status 200 with the
/// answer, or status 502 with the failure in words.
pub open spec fn backend_reply(result: Result<Seq<char>, Seq<char>>) -> ReplyView {
    match result {
        Ok(answer) => answer_reply(answer),
        Err(message) => error_reply(502, message),
    }
}

/// The prompt of a request, trimmed, where anything is left of it.
pub open spec fn usable_prompt(prompt: Seq<char>) -> Option<Seq<char>> {
    if trimmed(prompt).len() == 0 {
        None
    } else {
        Some(trimmed(prompt))
    }
}

/// The prompt of `request` without the white space round it, or nothing
/// where the prompt is empty or blank.
pub fn validated_prompt(request: &AskRequest) -> (out: Option<String>)
    ensures
        match out {
            Some(prompt) => usable_prompt(request.prompt@) == Some(prompt@),
            None => usable_prompt(request.prompt@) is None,
        },
{
    let prompt = trim_text(request.prompt.as_str());
    if prompt.as_str().is_empty() {
        None
    } else {
        Some(prompt)
    }
}

/// A reply with the given status that reports `error`.
pub fn error_reply_of(status: u16, error: String) -> (reply: Reply)
    ensures
        reply@ == error_reply(status, error@),
{
    Reply { status, body: ReplyBody::Error(ErrorResponse { error }) }
}

/// The reply to a request whose prompt is empty or blank: status 400.
pub fn bad_request_reply() -> (reply: Reply)
    ensures
        reply@ == bad_request(),
{
    error_reply_of(400, "Field \"prompt\" must be a non-empty string".to_owned())
}

/// The reply to a request that matches no route: status 404, whatever the
/// backend configuration is.
pub fn not_found_reply() -> (reply: Reply)
    ensures
        reply@ == not_found(),
{
    error_reply_of(404, "Not found".to_owned())
}

/// The reply that hands on what a backend returned.
pub fn reply_for(result: Result<String, String>) -> (reply: Reply)
    ensures
        reply@ == backend_reply(
            match result {
                Ok(answer) => Ok(answer@),
                Err(message) => Err(message@),
            },
        ),
{
    match result {
        Ok(answer) => Reply { status: 200, body: ReplyBody::Answer(AskResponse { answer }) },
        Err(message) => error_reply_of(502, message),
    }
}

/// The JSON text of an object with one member; `value` is the member's
/// value as JSON text.
pub open spec fn object_text(name: Seq<char>, value: Seq<char>) -> Seq<char> {
    "{\""@ + name + "\":"@ + value + "}"@
}

/// The JSON text of a reply body: an object with the one member `answer` or
/// `error`, a string.
pub open spec fn body_text(body: ReplyBodyView) -> Seq<char> {
    match body {
        ReplyBodyView::Answer(answer) => object_text("answer"@, json_string(answer)),
        ReplyBodyView::Error(error) => object_text("error"@, json_string(error)),
    }
}

/// The JSON text of an object with one member; `value` is the member's value
/// as JSON text.
pub fn object_of(name: &str, value: &str) -> (out: String)
    ensures
        out@ == object_text(name@, value@),
{
    let head = joined("{\"", name);
    let head = joined(head.as_str(), "\":");
    let head = joined(head.as_str(), value);
    joined(head.as_str(), "}")
}

/// The JSON text of a reply body whose text needs no escape: the text stands
/// in it as it is, between quotes.
pub open spec fn plain_body_text(body: ReplyBodyView) -> Seq<char> {
    match body {
        ReplyBodyView::Answer(answer) => object_text("answer"@, seq!['"'] + answer + seq!['"']),
        ReplyBodyView::Error(error) => object_text("error"@, seq!['"'] + error + seq!['"']),
    }
}

/// The text that a reply body carries.
pub open spec fn carried_text(body: ReplyBodyView) -> Seq<char> {
    match body {
        ReplyBodyView::Answer(answer) => answer,
        ReplyBodyView::Error(error) => error,
    }
}

impl Reply {
    /// The body as JSON text.
    pub fn body_json(&self) -> (out: String)
        ensures
            out@ == body_text(self@.body),
            needs_no_escape(carried_text(self@.body)) ==> out@ == plain_body_text(self@.body),
    {
        match &self.body {
            ReplyBody::Answer(response) => {
                let quoted = quote_json(response.answer.as_str());
                object_of("answer", quoted.as_str())
            },
            ReplyBody::Error(response) => {
                let quoted = quote_json(response.error.as_str());
                object_of("error", quoted.as_str())
            },
        }
    }
}

} // verus!
