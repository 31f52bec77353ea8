//! Authenticated web relay: the prompt is posted to the provider's endpoint
//! with a session credential, and the answer is recovered from the streamed
//! body.
//!
//! The library does not send the request. It says what is to be sent, as a
//! [`RelayRequest`], and judges what came back, reported as an
//! [`HttpOutcome`].

use crate::bridge::reply_view;
use crate::config::AppState;
use crate::json::{json_string, needs_no_escape, quote_json};
use crate::number::{decimal, decimal_text};
use crate::sse::{parse_sse_answer, sse_answer};
use crate::text::joined;
use reqwest::header::{HeaderValue, InvalidHeaderValue};
use reqwest::StatusCode;
use vstd::prelude::*;
use vstd::utf8::encode_utf8;

verus! {

/// `InvalidHeaderValue` of the `http` crate, which `reqwest` hands on: the
/// error of a text that is no header value. It is carried through unread.
#[verifier::external_type_specification]
#[verifier::external_body]
pub struct ExInvalidHeaderValue(InvalidHeaderValue);

/// A byte that a header value may hold: a tab, or any byte from 32 on but
/// 127.
pub open spec fn header_byte_allowed(b: u8) -> bool {
    (b >= 32 && b != 127) || b == 9
}

/// `text` can be sent as the value of a header: each byte of its UTF-8 form
/// is allowed there.
pub open spec fn header_value_valid(text: Seq<char>) -> bool {
    forall|i: int|
        0 <= i < encode_utf8(text).len() ==> header_byte_allowed(#[trigger] encode_utf8(text)[i])
}

/// Calls `HeaderValue::from_str` and drops the value it made. The call
/// succeeds where every byte of the text is allowed in a header value, and
/// fails on any other text.
#[verifier::external_body]
pub(crate) fn check_header_value(text: &str) -> (out: Result<(), InvalidHeaderValue>)
    ensures
        out is Ok <==> header_value_valid(text@),
{
    match HeaderValue::from_str(text) {
        Ok(_) => Ok(()),
        Err(error) => Err(error),
    }
}

/// The `Display` text of `InvalidHeaderValue`, which is the same for every
/// such error.
#[verifier::external_body]
pub(crate) fn invalid_header_text(error: &InvalidHeaderValue) -> (out: String)
    ensures
        out@ == "failed to parse header value"@,
{
    error.to_string()
}

/// The canonical reason phrase of the status code `code`, as
/// `StatusCode::canonical_reason` gives it, or `<unknown status code>` where
/// it gives none.
pub uninterp spec fn reason_phrase(code: u16) -> Seq<char>;

/// Makes a `StatusCode` of `code` by `StatusCode::from_u16`, which takes the
/// numbers from 100 to 999, and returns its `Display` text: the number, a
/// space, and the reason phrase.
#[verifier::external_body]
pub(crate) fn status_line_of(code: u16) -> (out: Option<String>)
    ensures
        out is Some <==> 100 <= code <= 999,
        out matches Some(line) ==> line@ == decimal(code as nat) + " "@ + reason_phrase(code),
{
    match StatusCode::from_u16(code) {
        Ok(status) => Some(status.to_string()),
        Err(_) => None,
    }
}

/// A request to send: a POST to `url` with the given headers, in order, and
/// the given body, to be given up after `timeout_ms` milliseconds.
#[derive(Debug, Clone, PartialEq, Eq)]
pub struct RelayRequest {
    pub url: String,
    pub headers: Vec<(String, String)>,
    pub body: String,
    pub timeout_ms: u64,
}

/// A request, its texts as character sequences.
pub struct RelayRequestView {
    pub url: Seq<char>,
    pub headers: Seq<(Seq<char>, Seq<char>)>,
    pub body: Seq<char>,
    pub timeout_ms: u64,
}

impl View for RelayRequest {
    type V = RelayRequestView;

    open spec fn view(&self) -> RelayRequestView {
        RelayRequestView {
            url: self.url@,
            headers: self.headers@.map_values(|h: (String, String)| (h.0@, h.1@)),
            body: self.body@,
            timeout_ms: self.timeout_ms,
        }
    }
}

/// The body of a response.
#[derive(Debug, Clone, PartialEq, Eq)]
pub enum ResponseBody {
    /// The whole body, as text.
    Text(String),
    /// The body could not be read; the text is the transport's reason.
    Unreadable(String),
}

/// What became of a request that was to be sent.
#[derive(Debug, Clone, PartialEq, Eq)]
pub enum HttpOutcome {
    /// The time limit passed first; the connection was closed.
    TimedOut,
    /// The request could not be sent; the text is the transport's reason.
    SendFailed(String),
    /// A response came, with this status code and body.
    Responded { status: u16, body: ResponseBody },
}

/// The step at which the transport failed.
#[derive(Debug, Clone, Copy, PartialEq, Eq, Structural)]
pub enum TransportStage {
    /// Sending the request.
    Send,
    /// Reading the body of the response.
    Read,
}

/// Why the web relay gave no answer.
#[derive(Debug, Clone, PartialEq, Eq)]
pub enum RelayError {
    /// The credential cannot be sent as a header; the text is the reason.
    ConfigurationError(String),
    /// No response came in time.
    Timeout,
    /// The transport failed; the text is its reason.
    TransportFailure { stage: TransportStage, reason: String },
    /// The provider answered with a status outside 200 to 299.
    HttpStatusFailure { status: u16, body: String },
    /// The response carried no answer.
    NoAnswer,
}

/// A relay failure, its texts as character sequences.
pub enum RelayFailure {
    ConfigurationError(Seq<char>),
    Timeout,
    TransportFailure { stage: TransportStage, reason: Seq<char> },
    HttpStatusFailure { status: u16, body: Seq<char> },
    NoAnswer,
}

impl View for RelayError {
    type V = RelayFailure;

    open spec fn view(&self) -> RelayFailure {
        match self {
            RelayError::ConfigurationError(reason) => RelayFailure::ConfigurationError(reason@),
            RelayError::Timeout => RelayFailure::Timeout,
            RelayError::TransportFailure { stage, reason } => RelayFailure::TransportFailure {
                stage: *stage,
                reason: reason@,
            },
            RelayError::HttpStatusFailure { status, body } => RelayFailure::HttpStatusFailure {
                status: *status,
                body: body@,
            },
            RelayError::NoAnswer => RelayFailure::NoAnswer,
        }
    }
}

/// The body of a request, given the prompt and the model as JSON strings:
/// one message of the role `user` whose only part is the prompt, the
/// continuation marker `msg-0`, the model, and history and training switched
/// off. The keys of each object stand in alphabetical order.
pub open spec fn body_around(quoted_prompt: Seq<char>, quoted_model: Seq<char>) -> Seq<char> {
    "{\"action\":\"next\",\"history_and_training_disabled\":true,\"messages\":[{\"author\":{\"role\":\"user\"},\"content\":{\"content_type\":\"text\",\"parts\":["@
        + quoted_prompt + "]},\"id\":\"msg-1\"}],\"model\":"@ + quoted_model
        + ",\"parent_message_id\":\"msg-0\"}"@
}

/// The body of the request for `prompt` and `model`.
pub open spec fn relay_body(prompt: Seq<char>, model: Seq<char>) -> Seq<char> {
    body_around(json_string(prompt), json_string(model))
}

/// The headers of a request that carries the credential `cookie`.
pub open spec fn relay_headers(cookie: Seq<char>) -> Seq<(Seq<char>, Seq<char>)> {
    seq![
        ("content-type"@, "application/json"@),
        ("origin"@, "https://chatgpt.com"@),
        ("referer"@, "https://chatgpt.com/"@),
        ("user-agent"@, "Mozilla/5.0"@),
        ("cookie"@, cookie),
    ]
}

/// The request that relays `prompt` under the configuration `state`.
pub open spec fn planned_request(prompt: Seq<char>, state: AppState) -> RelayRequestView {
    RelayRequestView {
        url: state.chatgpt_backend_url@,
        headers: relay_headers(state.chatgpt_session_cookie@),
        body: relay_body(prompt, state.chatgpt_model@),
        timeout_ms: state.timeout_ms,
    }
}

/// The body of a request, given the prompt and the model as JSON strings.
pub fn body_of(quoted_prompt: &str, quoted_model: &str) -> (out: String)
    ensures
        out@ == body_around(quoted_prompt@, quoted_model@),
{
    let body = joined(
        "{\"action\":\"next\",\"history_and_training_disabled\":true,\"messages\":[{\"author\":{\"role\":\"user\"},\"content\":{\"content_type\":\"text\",\"parts\":[",
        quoted_prompt,
    );
    let body = joined(body.as_str(), "]},\"id\":\"msg-1\"}],\"model\":");
    let body = joined(body.as_str(), quoted_model);
    joined(body.as_str(), ",\"parent_message_id\":\"msg-0\"}")
}

/// The request that relays `prompt`, or a configuration error where the
/// credential cannot be sent as a header value. Nothing is sent.
pub fn relay_request(prompt: &str, state: &AppState) -> (out: Result<RelayRequest, RelayError>)
    ensures
        header_value_valid(state.chatgpt_session_cookie@) <==> out is Ok,
        out matches Ok(request) ==> request@ == planned_request(prompt@, *state),
        out matches Ok(request) ==> (needs_no_escape(prompt@) && needs_no_escape(
            state.chatgpt_model@,
        ) ==> request@.body == body_around(
            seq!['"'] + prompt@ + seq!['"'],
            seq!['"'] + state.chatgpt_model@ + seq!['"'],
        )),
        out matches Err(error) ==> error@ == RelayFailure::ConfigurationError(
            "failed to parse header value"@,
        ),
{
    match check_header_value(state.chatgpt_session_cookie.as_str()) {
        Ok(_) => {},
        Err(invalid) => {
            return Err(RelayError::ConfigurationError(invalid_header_text(&invalid)));
        },
    }
    let quoted_prompt = quote_json(prompt);
    let quoted_model = quote_json(state.chatgpt_model.as_str());
    let body = body_of(quoted_prompt.as_str(), quoted_model.as_str());
    let mut headers: Vec<(String, String)> = Vec::new();
    headers.push(("content-type".to_owned(), "application/json".to_owned()));
    headers.push(("origin".to_owned(), "https://chatgpt.com".to_owned()));
    headers.push(("referer".to_owned(), "https://chatgpt.com/".to_owned()));
    headers.push(("user-agent".to_owned(), "Mozilla/5.0".to_owned()));
    headers.push(("cookie".to_owned(), state.chatgpt_session_cookie.clone()));
    let request = RelayRequest {
        url: state.chatgpt_backend_url.clone(),
        headers,
        body,
        timeout_ms: state.timeout_ms,
    };
    assert(request@.headers =~= relay_headers(state.chatgpt_session_cookie@));
    Ok(request)
}

/// What stands for the body of a response that could not be read.
pub open spec fn unreadable_body() -> Seq<char> {
    "<unable to read response body>"@
}

/// The judgement on the outcome of a request. A status from 200 to 299 is a
/// success; the answer is then what the streamed body carries.
pub open spec fn relay_verdict(outcome: HttpOutcome) -> Result<Seq<char>, RelayFailure> {
    match outcome {
        HttpOutcome::TimedOut => Err(RelayFailure::Timeout),
        HttpOutcome::SendFailed(reason) => Err(
            RelayFailure::TransportFailure { stage: TransportStage::Send, reason: reason@ },
        ),
        HttpOutcome::Responded { status, body } => if !(200 <= status < 300) {
            Err(
                RelayFailure::HttpStatusFailure {
                    status,
                    body: match body {
                        ResponseBody::Text(text) => text@,
                        ResponseBody::Unreadable(_) => unreadable_body(),
                    },
                },
            )
        } else {
            match body {
                ResponseBody::Unreadable(reason) => Err(
                    RelayFailure::TransportFailure { stage: TransportStage::Read, reason: reason@ },
                ),
                ResponseBody::Text(text) => match sse_answer(text@) {
                    Some(answer) => Ok(answer),
                    None => Err(RelayFailure::NoAnswer),
                },
            }
        },
    }
}

/// The view of an answer or a relay failure.
pub open spec fn relay_answer_view(result: Result<String, RelayError>) -> Result<
    Seq<char>,
    RelayFailure,
> {
    match result {
        Ok(answer) => Ok(answer@),
        Err(error) => Err(error@),
    }
}

/// Judges what came of a relayed request: the answer that the response
/// carries, or the kind of failure.
pub fn relay_answer(outcome: &HttpOutcome) -> (out: Result<String, RelayError>)
    ensures
        relay_answer_view(out) == relay_verdict(*outcome),
{
    match outcome {
        HttpOutcome::TimedOut => Err(RelayError::Timeout),
        HttpOutcome::SendFailed(reason) => Err(
            RelayError::TransportFailure { stage: TransportStage::Send, reason: reason.clone() },
        ),
        HttpOutcome::Responded { status, body } => {
            if *status < 200 || *status >= 300 {
                let shown = match body {
                    ResponseBody::Text(text) => text.clone(),
                    ResponseBody::Unreadable(_) => "<unable to read response body>".to_owned(),
                };
                Err(RelayError::HttpStatusFailure { status: *status, body: shown })
            } else {
                match body {
                    ResponseBody::Unreadable(reason) => Err(
                        RelayError::TransportFailure {
                            stage: TransportStage::Read,
                            reason: reason.clone(),
                        },
                    ),
                    ResponseBody::Text(text) => match parse_sse_answer(text.as_str()) {
                        Some(answer) => Ok(answer),
                        None => Err(RelayError::NoAnswer),
                    },
                }
            }
        },
    }
}

/// A status code in words: the number and its reason phrase, or the bare
/// number where it is no status code.
pub open spec fn status_text(code: u16) -> Seq<char> {
    if 100 <= code <= 999 {
        decimal(code as nat) + " "@ + reason_phrase(code)
    } else {
        decimal(code as nat)
    }
}

/// The message for a response with a status outside 200 to 299; `shown` is
/// the status in words.
pub open spec fn status_failure_text(shown: Seq<char>, body: Seq<char>) -> Seq<char> {
    "ChatGPT web request failed ("@ + shown + "): "@ + body
}

/// The message of a relay failure.
pub open spec fn relay_failure_text(failure: RelayFailure) -> Seq<char> {
    match failure {
        RelayFailure::ConfigurationError(reason) => "Invalid CHATGPT_SESSION_COOKIE header value: "@
            + reason,
        RelayFailure::Timeout => "ChatGPT web request timeout"@,
        RelayFailure::TransportFailure { stage, reason } => match stage {
            TransportStage::Send => "Failed to send ChatGPT request: "@ + reason,
            TransportStage::Read => "Failed to read ChatGPT response body: "@ + reason,
        },
        RelayFailure::HttpStatusFailure { status, body } => status_failure_text(
            status_text(status),
            body,
        ),
        RelayFailure::NoAnswer => "ChatGPT response did not contain an answer"@,
    }
}

/// The message for a response with a status outside 200 to 299; `shown` is
/// the status in words.
pub fn status_failure_message(shown: &str, body: &str) -> (out: String)
    ensures
        out@ == status_failure_text(shown@, body@),
{
    let head = joined("ChatGPT web request failed (", shown);
    let head = joined(head.as_str(), "): ");
    joined(head.as_str(), body)
}

impl RelayError {
    /// The failure in words.
    pub fn message(&self) -> (out: String)
        ensures
            out@ == relay_failure_text(self@),
    {
        match self {
            RelayError::ConfigurationError(reason) => joined(
                "Invalid CHATGPT_SESSION_COOKIE header value: ",
                reason.as_str(),
            ),
            RelayError::Timeout => "ChatGPT web request timeout".to_owned(),
            RelayError::TransportFailure { stage, reason } => match stage {
                TransportStage::Send => joined("Failed to send ChatGPT request: ", reason.as_str()),
                TransportStage::Read => joined(
                    "Failed to read ChatGPT response body: ",
                    reason.as_str(),
                ),
            },
            RelayError::HttpStatusFailure { status, body } => {
                let shown = match status_line_of(*status) {
                    Some(line) => line,
                    None => decimal_text(*status as u64),
                };
                status_failure_message(shown.as_str(), body.as_str())
            },
            RelayError::NoAnswer => "ChatGPT response did not contain an answer".to_owned(),
        }
    }
}

/// What the relay hands back for a request outcome: the answer, or the
/// failure in words.
pub open spec fn relay_reply_text(outcome: HttpOutcome) -> Result<Seq<char>, Seq<char>> {
    match relay_verdict(outcome) {
        Ok(answer) => Ok(answer),
        Err(failure) => Err(relay_failure_text(failure)),
    }
}

/// Judges what came of a relayed request and puts a failure into words.
pub fn relay_reply(outcome: &HttpOutcome) -> (out: Result<String, String>)
    ensures
        reply_view(out) == relay_reply_text(*outcome),
{
    match relay_answer(outcome) {
        Ok(answer) => Ok(answer),
        Err(error) => Err(error.message()),
    }
}

} // verus!
