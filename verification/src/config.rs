//! Configuration: the values that select and parameterise a backend, and how
//! they are read from the text of environment variables.
//!
//! The library reads no environment. The caller looks the variables up and
//! hands over what it found; a variable that is not set, or not text, is
//! `None`.

use crate::number::{bounded_decimal, parse_bounded};
use vstd::prelude::*;

verus! {

/// The backend configuration, made once and shared by all requests.
#[derive(Debug, Clone, PartialEq, Eq)]
pub struct AppState {
    /// The session credential, sent as a cookie. Empty: no web relay.
    pub chatgpt_session_cookie: String,
    /// The address of the provider's conversation endpoint.
    pub chatgpt_backend_url: String,
    /// The model to ask for.
    pub chatgpt_model: String,
    /// The time limit of one request, in milliseconds.
    pub timeout_ms: u64,
    /// The command of the browser bridge. Empty: no browser bridge.
    pub chatgpt_browser_cmd: String,
    /// The command of the argument bridge. Empty: no argument bridge.
    pub bridge_cmd: String,
}

/// The texts of the variables that the backend configuration is made from.
#[derive(Debug, Clone, PartialEq, Eq)]
pub struct RawSettings {
    /// `CHATGPT_SESSION_COOKIE`
    pub session_cookie: Option<String>,
    /// `CHATGPT_BACKEND_URL`
    pub backend_url: Option<String>,
    /// `CHATGPT_MODEL`
    pub model: Option<String>,
    /// `GPT_TIMEOUT_MS`
    pub timeout_ms: Option<String>,
    /// `CHATGPT_BROWSER_CMD`
    pub browser_cmd: Option<String>,
    /// `GPT_BRIDGE_CMD`
    pub bridge_cmd: Option<String>,
}

/// The text of a variable, or `default` where it is not set.
pub open spec fn text_or(value: Option<String>, default: Seq<char>) -> Seq<char> {
    match value {
        Some(text) => text@,
        None => default,
    }
}

/// The number that a variable writes, or `default` where it is not set or
/// writes no number up to `max`.
pub open spec fn number_or(value: Option<String>, max: u64, default: u64) -> u64 {
    match value {
        Some(text) => match bounded_decimal(text@, max) {
            Some(n) => n,
            None => default,
        },
        None => default,
    }
}

/// The endpoint that is asked where none is configured.
pub open spec fn default_backend_url() -> Seq<char> {
    "https://chatgpt.com/backend-api/conversation"@
}

/// The browser bridge command that is run where none is configured.
pub open spec fn default_browser_cmd() -> Seq<char> {
    "python3 scripts/chatgpt_browser_bridge.py"@
}

/// The text of a variable, or `default` where it is not set.
fn text_or_default(value: &Option<String>, default: &str) -> (out: String)
    ensures
        out@ == text_or(*value, default@),
{
    match value {
        Some(text) => text.clone(),
        None => default.to_owned(),
    }
}

/// The number that a variable writes, or `default`.
fn number_or_default(value: &Option<String>, max: u64, default: u64) -> (out: u64)
    ensures
        out == number_or(*value, max, default),
{
    match value {
        Some(text) => match parse_bounded(text.as_str(), max) {
            Some(n) => n,
            None => default,
        },
        None => default,
    }
}

/// The backend configuration that the given variables describe. A variable
/// that is not set takes its default: no credential, the provider's
/// conversation endpoint, the model `auto`, 20000 milliseconds, the stock
/// browser bridge command, no argument bridge. A time limit that is no
/// number up to `u64::MAX` counts as not set.
pub fn app_state_from(raw: &RawSettings) -> (state: AppState)
    ensures
        state.chatgpt_session_cookie@ == text_or(raw.session_cookie, Seq::empty()),
        state.chatgpt_backend_url@ == text_or(raw.backend_url, default_backend_url()),
        state.chatgpt_model@ == text_or(raw.model, "auto"@),
        state.timeout_ms == number_or(raw.timeout_ms, u64::MAX, 20_000),
        state.chatgpt_browser_cmd@ == text_or(raw.browser_cmd, default_browser_cmd()),
        state.bridge_cmd@ == text_or(raw.bridge_cmd, Seq::empty()),
{
    proof {
        reveal_strlit("");
        assert(""@ =~= Seq::<char>::empty());
    }
    AppState {
        chatgpt_session_cookie: text_or_default(&raw.session_cookie, ""),
        chatgpt_backend_url: text_or_default(
            &raw.backend_url,
            "https://chatgpt.com/backend-api/conversation",
        ),
        chatgpt_model: text_or_default(&raw.model, "auto"),
        timeout_ms: number_or_default(&raw.timeout_ms, u64::MAX, 20_000),
        chatgpt_browser_cmd: text_or_default(
            &raw.browser_cmd,
            "python3 scripts/chatgpt_browser_bridge.py",
        ),
        bridge_cmd: text_or_default(&raw.bridge_cmd, ""),
    }
}

/// The port to listen on: the number that `PORT` writes, or 3000 where it is
/// not set or writes no number up to 65535.
pub fn server_port_from(port: &Option<String>) -> (out: u16)
    ensures
        out == number_or(*port, 65_535, 3000),
{
    let n = number_or_default(port, 65_535, 3000);
    n as u16
}

/// The configuration of a service with one bridge command.
#[derive(Debug, Clone, PartialEq, Eq)]
pub struct AppConfig {
    port: u16,
    bridge_cmd: String,
    timeout_ms: u64,
}

impl AppConfig {
    /// The port to listen on.
    pub closed spec fn spec_port(&self) -> u16 {
        self.port
    }

    /// The bridge command.
    pub closed spec fn spec_bridge_cmd(&self) -> Seq<char> {
        self.bridge_cmd@
    }

    /// The time limit of one request, in milliseconds.
    pub closed spec fn spec_timeout_ms(&self) -> u64 {
        self.timeout_ms
    }

    /// The configuration that the variables `PORT`, `BRIDGE_CMD` and
    /// `TIMEOUT_MS` describe. Where one is not set, or writes no number that
    /// fits, the port is 3000, the command `bridge`, the limit 20000
    /// milliseconds.
    pub fn from_values(
        port: &Option<String>,
        bridge_cmd: &Option<String>,
        timeout_ms: &Option<String>,
    ) -> (cfg: Self)
        ensures
            cfg.spec_port() == number_or(*port, 65_535, 3000),
            cfg.spec_bridge_cmd() == text_or(*bridge_cmd, "bridge"@),
            cfg.spec_timeout_ms() == number_or(*timeout_ms, u64::MAX, 20_000),
    {
        let port_number = number_or_default(port, 65_535, 3000);
        AppConfig {
            port: port_number as u16,
            bridge_cmd: text_or_default(bridge_cmd, "bridge"),
            timeout_ms: number_or_default(timeout_ms, u64::MAX, 20_000),
        }
    }

    /// The port to listen on.
    #[verifier::when_used_as_spec(spec_port)]
    pub fn port(&self) -> (out: u16)
        ensures
            out == self.spec_port(),
    {
        self.port
    }

    /// The bridge command.
    pub fn bridge_cmd(&self) -> (out: &str)
        ensures
            out@ == self.spec_bridge_cmd(),
    {
        self.bridge_cmd.as_str()
    }

    /// The time limit of one request, in milliseconds.
    #[verifier::when_used_as_spec(spec_timeout_ms)]
    pub fn timeout_ms(&self) -> (out: u64)
        ensures
            out == self.spec_timeout_ms(),
    {
        self.timeout_ms
    }
}

} // verus!
