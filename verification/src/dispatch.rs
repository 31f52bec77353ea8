//! The dispatch of a request: which strategy serves it, what the caller is
//! to do for it, and what is replied.
//!
//! One request takes two steps. [`begin`] looks at the request and the
//! configuration and either replies at once or names the work: a command to
//! run or a request to send. The caller does that work under the time limit
//! it comes with and reports the outcome to [`finish_run`] or
//! [`finish_send`], which give the reply.

use crate::api::{
    backend_reply, bad_request, bad_request_reply, error_reply, error_reply_of, reply_for,
    usable_prompt, validated_prompt, AskRequest, Reply, ReplyView,
};
use crate::bridge::{
    argument_text, bridge_reply, bridge_reply_text, lemma_planned_prompt, plan_invocation,
    planned, prompt_of, BridgeError, BridgeKind, Failure, Invocation, InvocationView,
    ProcessOutcome,
};
use crate::config::AppState;
use crate::relay::{
    header_value_valid, planned_request, relay_body, relay_failure_text, relay_reply,
    relay_reply_text, relay_request, HttpOutcome, RelayFailure, RelayRequest, RelayRequestView,
};
use crate::text::trimmed;
use vstd::prelude::*;

verus! {

/// A way to obtain an answer.
#[derive(Debug, Clone, Copy, PartialEq, Eq, Structural)]
pub enum Strategy {
    /// Post the prompt to the provider's endpoint.
    WebRelay,
    /// Run the browser bridge command.
    BrowserBridge,
    /// Run the bridge command with the prompt as its argument.
    ArgumentBridge,
}

/// The strategy that a configuration selects: the web relay where a
/// credential is configured; else the browser bridge where its command is;
/// else the argument bridge where its command is; else none.
pub open spec fn chosen(state: AppState) -> Option<Strategy> {
    if state.chatgpt_session_cookie@.len() > 0 {
        Some(Strategy::WebRelay)
    } else if state.chatgpt_browser_cmd@.len() > 0 {
        Some(Strategy::BrowserBridge)
    } else if state.bridge_cmd@.len() > 0 {
        Some(Strategy::ArgumentBridge)
    } else {
        None
    }
}

/// The strategy that the configuration selects, if it selects one.
pub fn select_strategy(state: &AppState) -> (out: Option<Strategy>)
    ensures
        out == chosen(*state),
{
    if !state.chatgpt_session_cookie.as_str().is_empty() {
        Some(Strategy::WebRelay)
    } else if !state.chatgpt_browser_cmd.as_str().is_empty() {
        Some(Strategy::BrowserBridge)
    } else if !state.bridge_cmd.as_str().is_empty() {
        Some(Strategy::ArgumentBridge)
    } else {
        None
    }
}

/// Work that the caller does for one request.
#[derive(Debug, Clone, PartialEq, Eq)]
pub enum Work {
    /// Run a command and report to [`finish_run`] with the same `kind`.
    Run { kind: BridgeKind, invocation: Invocation },
    /// Send a request and report to [`finish_send`].
    Send(RelayRequest),
}

/// Work, its texts as character sequences.
pub enum WorkView {
    Run { kind: BridgeKind, invocation: InvocationView },
    Send(RelayRequestView),
}

impl View for Work {
    type V = WorkView;

    open spec fn view(&self) -> WorkView {
        match self {
            Work::Run { kind, invocation } => WorkView::Run {
                kind: *kind,
                invocation: invocation@,
            },
            Work::Send(request) => WorkView::Send(request@),
        }
    }
}

/// The message for a configuration that selects no strategy.
pub open spec fn no_strategy_text() -> Seq<char> {
    argument_text(Failure::MissingCommand)
}

/// The message for a credential that cannot be sent as a header value.
pub open spec fn bad_credential_text() -> Seq<char> {
    relay_failure_text(RelayFailure::ConfigurationError("failed to parse header value"@))
}

/// The work that serves `prompt` under the configuration `state`, or the
/// message of the configuration error that stands in its way.
pub open spec fn planned_work(prompt: Seq<char>, state: AppState) -> Result<WorkView, Seq<char>> {
    match chosen(state) {
        None => Err(no_strategy_text()),
        Some(Strategy::WebRelay) => if header_value_valid(state.chatgpt_session_cookie@) {
            Ok(WorkView::Send(planned_request(prompt, state)))
        } else {
            Err(bad_credential_text())
        },
        Some(Strategy::BrowserBridge) => Ok(
            WorkView::Run {
                kind: BridgeKind::Browser,
                invocation: planned(
                    BridgeKind::Browser,
                    prompt,
                    state.chatgpt_browser_cmd@,
                    state.timeout_ms,
                ),
            },
        ),
        Some(Strategy::ArgumentBridge) => Ok(
            WorkView::Run {
                kind: BridgeKind::Argument,
                invocation: planned(
                    BridgeKind::Argument,
                    prompt,
                    state.bridge_cmd@,
                    state.timeout_ms,
                ),
            },
        ),
    }
}

/// The view of work or a message.
pub open spec fn work_view(result: Result<Work, String>) -> Result<WorkView, Seq<char>> {
    match result {
        Ok(work) => Ok(work@),
        Err(message) => Err(message@),
    }
}

/// Selects the strategy for `prompt` and names the work it takes. Where no
/// strategy is configured, or the credential cannot be sent, the result is
/// the message of that error, and there is nothing to run or send.
pub fn plan_ask(prompt: &str, state: &AppState) -> (out: Result<Work, String>)
    ensures
        work_view(out) == planned_work(prompt@, *state),
{
    match select_strategy(state) {
        None => Err(BridgeError::MissingCommand.describe(BridgeKind::Argument)),
        Some(Strategy::WebRelay) => match relay_request(prompt, state) {
            Ok(request) => Ok(Work::Send(request)),
            Err(error) => Err(error.message()),
        },
        Some(Strategy::BrowserBridge) => {
            match plan_invocation(
                BridgeKind::Browser,
                prompt,
                state.chatgpt_browser_cmd.as_str(),
                state.timeout_ms,
            ) {
                Ok(invocation) => Ok(Work::Run { kind: BridgeKind::Browser, invocation }),
                Err(error) => Err(error.describe(BridgeKind::Browser)),
            }
        },
        Some(Strategy::ArgumentBridge) => {
            match plan_invocation(
                BridgeKind::Argument,
                prompt,
                state.bridge_cmd.as_str(),
                state.timeout_ms,
            ) {
                Ok(invocation) => Ok(Work::Run { kind: BridgeKind::Argument, invocation }),
                Err(error) => Err(error.describe(BridgeKind::Argument)),
            }
        },
    }
}

/// The first step of a request.
#[derive(Debug, Clone, PartialEq, Eq)]
pub enum Step {
    /// Reply at once; nothing is run and nothing is sent.
    Respond(Reply),
    /// Do this work and report its outcome.
    Perform(Work),
}

/// A first step, its texts as character sequences.
pub enum StepView {
    Respond(ReplyView),
    Perform(WorkView),
}

impl View for Step {
    type V = StepView;

    open spec fn view(&self) -> StepView {
        match self {
            Step::Respond(reply) => StepView::Respond(reply@),
            Step::Perform(work) => StepView::Perform(work@),
        }
    }
}

/// The first step for a request with the given prompt: a blank prompt is
/// refused with status 400; a configuration error is reported with status
/// 502; otherwise the trimmed prompt goes to the selected strategy.
pub open spec fn first_step(prompt: Seq<char>, state: AppState) -> StepView {
    match usable_prompt(prompt) {
        None => StepView::Respond(bad_request()),
        Some(text) => match planned_work(text, state) {
            Ok(work) => StepView::Perform(work),
            Err(message) => StepView::Respond(error_reply(502, message)),
        },
    }
}

/// Takes the first step of a request: checks the prompt, selects the
/// strategy and names the work. It runs and sends nothing itself.
pub fn begin(request: &AskRequest, state: &AppState) -> (step: Step)
    ensures
        step@ == first_step(request.prompt@, *state),
{
    match validated_prompt(request) {
        None => Step::Respond(bad_request_reply()),
        Some(prompt) => match plan_ask(prompt.as_str(), state) {
            Ok(work) => Step::Perform(work),
            Err(message) => Step::Respond(error_reply_of(502, message)),
        },
    }
}

/// The reply to a request whose command was run with the given outcome:
/// status 200 with the answer, or status 502 with the failure in words.
pub fn finish_run(kind: BridgeKind, outcome: &ProcessOutcome) -> (reply: Reply)
    ensures
        reply@ == backend_reply(bridge_reply_text(kind, *outcome)),
{
    reply_for(bridge_reply(kind, outcome))
}

/// The reply to a request that was relayed with the given outcome: status
/// 200 with the answer, or status 502 with the failure in words.
pub fn finish_send(outcome: &HttpOutcome) -> (reply: Reply)
    ensures
        reply@ == backend_reply(relay_reply_text(*outcome)),
{
    reply_for(relay_reply(outcome))
}

/// A request whose prompt is empty or blank is refused with status 400,
/// whatever the configuration: no command is run and no request is sent
/// for it.
pub proof fn lemma_blank_prompt_is_refused(prompt: Seq<char>, state: AppState)
    requires
        trimmed(prompt).len() == 0,
    ensures
        first_step(prompt, state) == StepView::Respond(bad_request()),
        bad_request().status == 400,
        !(first_step(prompt, state) is Perform),
{
}

/// Whatever strategy serves a request, it is handed the prompt without the
/// white space round it, character for character: as the argument or the
/// variable of the command, or as the one part of the one message of the
/// request body.
pub proof fn lemma_strategy_receives_trimmed_prompt(prompt: Seq<char>, state: AppState)
    requires
        trimmed(prompt).len() > 0,
    ensures
        match first_step(prompt, state) {
            StepView::Perform(WorkView::Run { kind, invocation }) => prompt_of(kind, invocation)
                == trimmed(prompt),
            StepView::Perform(WorkView::Send(request)) => request.body == relay_body(
                trimmed(prompt),
                state.chatgpt_model@,
            ),
            StepView::Respond(reply) => reply.status == 502,
        },
{
    lemma_planned_prompt(
        BridgeKind::Browser,
        trimmed(prompt),
        state.chatgpt_browser_cmd@,
        state.timeout_ms,
    );
    lemma_planned_prompt(
        BridgeKind::Argument,
        trimmed(prompt),
        state.bridge_cmd@,
        state.timeout_ms,
    );
}

/// Without a credential and without a bridge command every request with a
/// usable prompt is answered with status 502 and the message for a missing
/// command: no command is run and no request is sent.
pub proof fn lemma_unconfigured_backend_is_reported(prompt: Seq<char>, state: AppState)
    requires
        trimmed(prompt).len() > 0,
        state.chatgpt_session_cookie@.len() == 0,
        state.chatgpt_browser_cmd@.len() == 0,
        state.bridge_cmd@.len() == 0,
    ensures
        first_step(prompt, state) == StepView::Respond(error_reply(502, no_strategy_text())),
        !(first_step(prompt, state) is Perform),
{
}

} // verus!
