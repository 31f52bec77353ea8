//! Bridge strategies: an external command is the source of the answer.
//!
//! The library does not start the command. It says what is to be run, as an
//! [`Invocation`], and judges what came of it, reported as a
//! [`ProcessOutcome`].

use crate::number::{signed_decimal, signed_decimal_text};
use crate::text::{
    chars_of, contains, find_first, is_whitespace, joined, lemma_contains_part, lemma_trimmed,
    trim_text, trimmed,
};
use vstd::prelude::*;
use vstd::utf8::{decode_utf8, valid_utf8};

verus! {

/// The text that `String::from_utf8_lossy` makes of a sequence of bytes.
pub uninterp spec fn utf8_lossy(bytes: Seq<u8>) -> Seq<char>;

/// Calls `String::from_utf8_lossy`, which reads the bytes as UTF-8 and puts a
/// replacement character where they are malformed. Bytes that are valid
/// UTF-8 give the text they encode; of any other bytes the contract only
/// names the result.
#[verifier::external_body]
pub(crate) fn lossy_text(bytes: &[u8]) -> (out: String)
    ensures
        out@ == utf8_lossy(bytes@),
        valid_utf8(bytes@) ==> out@ == decode_utf8(bytes@),
{
    String::from_utf8_lossy(bytes).into_owned()
}

/// A bridge command and the time it is given.
pub struct BridgeConfig {
    bridge_cmd: String,
    timeout_ms: u64,
}

impl BridgeConfig {
    /// The configured command line.
    pub closed spec fn spec_bridge_cmd(&self) -> Seq<char> {
        self.bridge_cmd@
    }

    /// The configured time limit in milliseconds.
    pub closed spec fn spec_timeout_ms(&self) -> u64 {
        self.timeout_ms
    }

    /// A configuration with the given command line and time limit.
    pub fn new(bridge_cmd: &str, timeout_ms: u64) -> (cfg: Self)
        ensures
            cfg.spec_bridge_cmd() == bridge_cmd@,
            cfg.spec_timeout_ms() == timeout_ms,
    {
        BridgeConfig { bridge_cmd: bridge_cmd.to_owned(), timeout_ms }
    }

    /// The configured command line.
    pub fn bridge_cmd(&self) -> (cmd: &str)
        ensures
            cmd@ == self.spec_bridge_cmd(),
    {
        self.bridge_cmd.as_str()
    }

    /// The configured time limit in milliseconds.
    #[verifier::when_used_as_spec(spec_timeout_ms)]
    pub fn timeout_ms(&self) -> (ms: u64)
        ensures
            ms == self.spec_timeout_ms(),
    {
        self.timeout_ms
    }
}

/// How a bridge command is started and how it is handed the prompt.
#[derive(Debug, Clone, Copy, PartialEq, Eq, Structural)]
pub enum BridgeKind {
    /// `sh -c <command>`, the prompt in the variable `BRIDGE_PROMPT`.
    Environment,
    /// `bash -lc <command> -- <prompt>`: the prompt is the command's first
    /// positional argument.
    Argument,
    /// `sh -lc <command>`, the prompt in the variable `CHATGPT_PROMPT`; the
    /// command is expected to drive a browser.
    Browser,
}

/// Why a bridge gave no answer.
#[derive(Debug, Clone, PartialEq, Eq)]
pub enum BridgeError {
    /// No command is configured.
    MissingCommand,
    /// The command did not finish in time.
    Timeout,
    /// The command could not be started; the text is the system's reason.
    SpawnFailure(String),
    /// The command ran and reported failure.
    NonZeroExit { code: Option<i32>, stderr: String },
    /// The command succeeded and printed nothing.
    EmptyOutput,
}

/// A bridge failure, its texts as character sequences.
pub enum Failure {
    MissingCommand,
    Timeout,
    SpawnFailure(Seq<char>),
    NonZeroExit { code: Option<i32>, stderr: Seq<char> },
    EmptyOutput,
}

impl View for BridgeError {
    type V = Failure;

    open spec fn view(&self) -> Failure {
        match self {
            BridgeError::MissingCommand => Failure::MissingCommand,
            BridgeError::Timeout => Failure::Timeout,
            BridgeError::SpawnFailure(reason) => Failure::SpawnFailure(reason@),
            BridgeError::NonZeroExit { code, stderr } => Failure::NonZeroExit {
                code: *code,
                stderr: stderr@,
            },
            BridgeError::EmptyOutput => Failure::EmptyOutput,
        }
    }
}

/// A command to run: the program, its arguments, the variables to add to its
/// environment, and the time after which it is to be killed. Standard output
/// and standard error are to be captured apart.
#[derive(Debug, Clone, PartialEq, Eq)]
pub struct Invocation {
    pub program: String,
    pub args: Vec<String>,
    pub env: Vec<(String, String)>,
    pub timeout_ms: u64,
}

/// An invocation, its texts as character sequences.
pub struct InvocationView {
    pub program: Seq<char>,
    pub args: Seq<Seq<char>>,
    pub env: Seq<(Seq<char>, Seq<char>)>,
    pub timeout_ms: u64,
}

impl View for Invocation {
    type V = InvocationView;

    open spec fn view(&self) -> InvocationView {
        InvocationView {
            program: self.program@,
            args: self.args@.map_values(|a: String| a@),
            env: self.env@.map_values(|p: (String, String)| (p.0@, p.1@)),
            timeout_ms: self.timeout_ms,
        }
    }
}

/// What became of a command that was to be run.
#[derive(Debug, Clone, PartialEq, Eq)]
pub enum ProcessOutcome {
    /// The time limit passed first; the process was killed.
    TimedOut,
    /// The process could not be started; the text is the system's reason.
    SpawnFailed(String),
    /// The process ended. `code` is its exit code, if it has one; `status`
    /// is the system's description of how it ended.
    Exited { code: Option<i32>, status: String, stdout: Vec<u8>, stderr: Vec<u8> },
}

/// Whether a command line counts as not configured. The environment bridge
/// takes a blank command line for a missing one; the others only an empty one.
pub open spec fn command_missing(kind: BridgeKind, command: Seq<char>) -> bool {
    match kind {
        BridgeKind::Environment => trimmed(command).len() == 0,
        BridgeKind::Argument => command.len() == 0,
        BridgeKind::Browser => command.len() == 0,
    }
}

/// The invocation that serves `prompt` with the bridge `command`.
pub open spec fn planned(
    kind: BridgeKind,
    prompt: Seq<char>,
    command: Seq<char>,
    timeout_ms: u64,
) -> InvocationView {
    match kind {
        BridgeKind::Environment => InvocationView {
            program: "sh"@,
            args: seq!["-c"@, command],
            env: seq![("BRIDGE_PROMPT"@, prompt)],
            timeout_ms,
        },
        BridgeKind::Argument => InvocationView {
            program: "bash"@,
            args: seq!["-lc"@, command, "--"@, prompt],
            env: Seq::empty(),
            timeout_ms,
        },
        BridgeKind::Browser => InvocationView {
            program: "sh"@,
            args: seq!["-lc"@, command],
            env: seq![("CHATGPT_PROMPT"@, prompt)],
            timeout_ms,
        },
    }
}

/// The invocation that serves `prompt`, or `MissingCommand` where no command
/// is configured. Nothing is run.
pub fn plan_invocation(kind: BridgeKind, prompt: &str, command: &str, timeout_ms: u64) -> (out:
    Result<Invocation, BridgeError>)
    ensures
        command_missing(kind, command@) <==> out is Err,
        out matches Err(e) ==> e@ == Failure::MissingCommand,
        out matches Ok(inv) ==> inv@ == planned(kind, prompt@, command@, timeout_ms),
{
    let mut args: Vec<String> = Vec::new();
    let mut env: Vec<(String, String)> = Vec::new();
    match kind {
        BridgeKind::Environment => {
            let kept = trim_text(command);
            if kept.as_str().is_empty() {
                return Err(BridgeError::MissingCommand);
            }
            args.push("-c".to_owned());
            args.push(command.to_owned());
            env.push(("BRIDGE_PROMPT".to_owned(), prompt.to_owned()));
            let inv = Invocation { program: "sh".to_owned(), args, env, timeout_ms };
            assert(inv@.args =~= planned(kind, prompt@, command@, timeout_ms).args);
            assert(inv@.env =~= planned(kind, prompt@, command@, timeout_ms).env);
            Ok(inv)
        },
        BridgeKind::Argument => {
            if command.is_empty() {
                return Err(BridgeError::MissingCommand);
            }
            args.push("-lc".to_owned());
            args.push(command.to_owned());
            args.push("--".to_owned());
            args.push(prompt.to_owned());
            let inv = Invocation { program: "bash".to_owned(), args, env, timeout_ms };
            assert(inv@.args =~= planned(kind, prompt@, command@, timeout_ms).args);
            assert(inv@.env =~= planned(kind, prompt@, command@, timeout_ms).env);
            Ok(inv)
        },
        BridgeKind::Browser => {
            if command.is_empty() {
                return Err(BridgeError::MissingCommand);
            }
            args.push("-lc".to_owned());
            args.push(command.to_owned());
            env.push(("CHATGPT_PROMPT".to_owned(), prompt.to_owned()));
            let inv = Invocation { program: "sh".to_owned(), args, env, timeout_ms };
            assert(inv@.args =~= planned(kind, prompt@, command@, timeout_ms).args);
            assert(inv@.env =~= planned(kind, prompt@, command@, timeout_ms).env);
            Ok(inv)
        },
    }
}

/// The invocation of the configured bridge command for `prompt`: the command
/// line is run by `sh -c` and finds the prompt in `BRIDGE_PROMPT`. A blank
/// command line gives `MissingCommand`.
pub fn bridge_invocation(prompt: &str, cfg: &BridgeConfig) -> (out: Result<Invocation, BridgeError>)
    ensures
        command_missing(BridgeKind::Environment, cfg.spec_bridge_cmd()) <==> out is Err,
        out matches Err(e) ==> e@ == Failure::MissingCommand,
        out matches Ok(inv) ==> inv@ == planned(
            BridgeKind::Environment,
            prompt@,
            cfg.spec_bridge_cmd(),
            cfg.spec_timeout_ms(),
        ),
{
    plan_invocation(BridgeKind::Environment, prompt, cfg.bridge_cmd(), cfg.timeout_ms())
}

/// The judgement on a process that ended with the exit code `code`, if it
/// had one. `output` and `errors` are what it wrote to its standard output
/// and to its standard error, as text without the white space round it. The
/// answer is the output of a process that ended with code 0, unless that is
/// empty.
pub open spec fn exit_verdict(code: Option<i32>, output: Seq<char>, errors: Seq<char>) -> Result<
    Seq<char>,
    Failure,
> {
    if code != Some(0i32) {
        Err(Failure::NonZeroExit { code, stderr: errors })
    } else if output.len() == 0 {
        Err(Failure::EmptyOutput)
    } else {
        Ok(output)
    }
}

/// The judgement on a process outcome. What the process wrote is read as
/// UTF-8, with replacement characters where it is malformed, and trimmed.
pub open spec fn verdict(outcome: ProcessOutcome) -> Result<Seq<char>, Failure> {
    match outcome {
        ProcessOutcome::TimedOut => Err(Failure::Timeout),
        ProcessOutcome::SpawnFailed(reason) => Err(Failure::SpawnFailure(reason@)),
        ProcessOutcome::Exited { code, status, stdout, stderr } => exit_verdict(
            code,
            trimmed(utf8_lossy(stdout@)),
            trimmed(utf8_lossy(stderr@)),
        ),
    }
}

/// The view of an answer or a bridge failure.
pub open spec fn answer_view(result: Result<String, BridgeError>) -> Result<Seq<char>, Failure> {
    match result {
        Ok(answer) => Ok(answer@),
        Err(error) => Err(error@),
    }
}

/// Judges a process that ended: `output` and `errors` are its standard
/// output and its standard error as trimmed text.
pub fn judge_exit(code: Option<i32>, output: String, errors: String) -> (out: Result<
    String,
    BridgeError,
>)
    ensures
        answer_view(out) == exit_verdict(code, output@, errors@),
{
    let succeeded = match code {
        Some(c) => c == 0,
        None => false,
    };
    if !succeeded {
        Err(BridgeError::NonZeroExit { code, stderr: errors })
    } else if output.as_str().is_empty() {
        Err(BridgeError::EmptyOutput)
    } else {
        Ok(output)
    }
}

/// The judgement on a process outcome whose output is valid UTF-8: what the
/// process wrote is the text that its bytes encode, trimmed.
pub open spec fn decoded_verdict(outcome: ProcessOutcome) -> Result<Seq<char>, Failure> {
    match outcome {
        ProcessOutcome::TimedOut => Err(Failure::Timeout),
        ProcessOutcome::SpawnFailed(reason) => Err(Failure::SpawnFailure(reason@)),
        ProcessOutcome::Exited { code, status, stdout, stderr } => exit_verdict(
            code,
            trimmed(decode_utf8(stdout@)),
            trimmed(decode_utf8(stderr@)),
        ),
    }
}

/// What the process of `outcome` wrote is valid UTF-8, if a process ended.
pub open spec fn wrote_utf8(outcome: ProcessOutcome) -> bool {
    match outcome {
        ProcessOutcome::Exited { code, status, stdout, stderr } => valid_utf8(stdout@)
            && valid_utf8(stderr@),
        _ => true,
    }
}

/// Judges what came of a bridge command: the answer it printed, or the kind
/// of failure.
pub fn bridge_answer(outcome: &ProcessOutcome) -> (out: Result<String, BridgeError>)
    ensures
        answer_view(out) == verdict(*outcome),
        wrote_utf8(*outcome) ==> answer_view(out) == decoded_verdict(*outcome),
{
    match outcome {
        ProcessOutcome::TimedOut => Err(BridgeError::Timeout),
        ProcessOutcome::SpawnFailed(reason) => Err(BridgeError::SpawnFailure(reason.clone())),
        ProcessOutcome::Exited { code, status, stdout, stderr } => {
            let output = lossy_text(stdout.as_slice());
            let errors = lossy_text(stderr.as_slice());
            judge_exit(*code, trim_text(output.as_str()), trim_text(errors.as_str()))
        },
    }
}

/// An exit code as `{:?}` writes it: `Some(..)` round the number, or `None`.
pub open spec fn code_debug(code: Option<i32>) -> Seq<char> {
    match code {
        Some(c) => "Some("@ + signed_decimal(c as int) + ")"@,
        None => "None"@,
    }
}

/// An exit code in decimal, or `unknown` where the process had none.
pub open spec fn code_or_unknown(code: Option<i32>) -> Seq<char> {
    match code {
        Some(c) => signed_decimal(c as int),
        None => "unknown"@,
    }
}

/// What the standard error of a browser bridge holds when the automation
/// library is not installed.
pub open spec fn dependency_signature() -> Seq<char> {
    "No module named 'playwright'"@
}

/// What is added to the message of a browser bridge that lacks its
/// automation library.
pub open spec fn remediation_hint() -> Seq<char> {
    " (hint: install the browser automation dependency: pip install playwright && playwright install chromium)"@
}

/// The message for a browser bridge that reported failure: its standard
/// error, or the way it ended where it wrote none, and the hint where the
/// standard error shows that the automation library is missing.
pub open spec fn browser_exit_text(stderr: Seq<char>, status: Seq<char>) -> Seq<char> {
    (if stderr.len() == 0 {
        "Browser automation command failed with status "@ + status
    } else {
        "Browser automation command failed: "@ + stderr
    }) + (if contains(stderr, dependency_signature()) {
        remediation_hint()
    } else {
        Seq::empty()
    })
}

/// The message of a failure of the environment bridge.
pub open spec fn message_text(failure: Failure) -> Seq<char> {
    match failure {
        Failure::MissingCommand => "bridge command is missing"@,
        Failure::Timeout => "bridge command timed out"@,
        Failure::SpawnFailure(reason) => "failed to execute bridge command: "@ + reason,
        Failure::NonZeroExit { code, stderr } => "bridge command exited with code "@ + code_debug(
            code,
        ) + ": "@ + stderr,
        Failure::EmptyOutput => "bridge command produced empty output"@,
    }
}

/// The message of a failure of the argument bridge.
pub open spec fn argument_text(failure: Failure) -> Seq<char> {
    match failure {
        Failure::MissingCommand => "GPT integration missing: set GPT_BRIDGE_CMD to a command that reads prompt from argv[1] and prints the answer to stdout"@,
        Failure::Timeout => "GPT bridge timeout"@,
        Failure::SpawnFailure(reason) => "GPT bridge failed to start: "@ + reason,
        Failure::NonZeroExit { code, stderr } => "GPT bridge exited with status "@
            + code_or_unknown(code) + ": "@ + stderr,
        Failure::EmptyOutput => "GPT bridge returned empty output"@,
    }
}

/// The message of a failure of the browser bridge; `status` says how the
/// process ended.
pub open spec fn browser_text(failure: Failure, status: Seq<char>) -> Seq<char> {
    match failure {
        Failure::MissingCommand => "Browser automation command is missing"@,
        Failure::Timeout => "ChatGPT browser automation timeout"@,
        Failure::SpawnFailure(reason) => "Failed to start browser automation command: "@ + reason,
        Failure::NonZeroExit { code, stderr } => browser_exit_text(stderr, status),
        Failure::EmptyOutput => "Browser automation did not return an answer"@,
    }
}

/// The message of a bridge failure, as the bridge of the given kind words it.
pub open spec fn failure_text(kind: BridgeKind, failure: Failure, status: Seq<char>) -> Seq<char> {
    match kind {
        BridgeKind::Environment => message_text(failure),
        BridgeKind::Argument => argument_text(failure),
        BridgeKind::Browser => browser_text(failure, status),
    }
}

/// The exit code as `{:?}` writes it.
fn code_debug_text(code: Option<i32>) -> (out: String)
    ensures
        out@ == code_debug(code),
{
    match code {
        Some(c) => {
            let number = signed_decimal_text(c);
            let head = joined("Some(", number.as_str());
            joined(head.as_str(), ")")
        },
        None => "None".to_owned(),
    }
}

/// The exit code in decimal, or `unknown`.
fn code_or_unknown_text(code: Option<i32>) -> (out: String)
    ensures
        out@ == code_or_unknown(code),
{
    match code {
        Some(c) => signed_decimal_text(c),
        None => "unknown".to_owned(),
    }
}

/// The message for a browser bridge that reported failure.
fn browser_exit_message(stderr: &str, status: &str) -> (out: String)
    ensures
        out@ == browser_exit_text(stderr@, status@),
{
    let base = if stderr.is_empty() {
        joined("Browser automation command failed with status ", status)
    } else {
        joined("Browser automation command failed: ", stderr)
    };
    let hay = chars_of(stderr);
    let signature = chars_of("No module named 'playwright'");
    match find_first(hay.as_slice(), signature.as_slice(), 0) {
        Some(_) => {
            let out = joined(
                base.as_str(),
                " (hint: install the browser automation dependency: pip install playwright && playwright install chromium)",
            );
            out
        },
        None => {
            assert(base@ + Seq::<char>::empty() =~= base@);
            base
        },
    }
}

impl BridgeError {
    /// The failure in words, as the environment bridge reports it.
    pub fn message(&self) -> (out: String)
        ensures
            out@ == message_text(self@),
    {
        match self {
            BridgeError::MissingCommand => "bridge command is missing".to_owned(),
            BridgeError::Timeout => "bridge command timed out".to_owned(),
            BridgeError::SpawnFailure(reason) => joined(
                "failed to execute bridge command: ",
                reason.as_str(),
            ),
            BridgeError::NonZeroExit { code, stderr } => {
                let shown = code_debug_text(*code);
                let head = joined("bridge command exited with code ", shown.as_str());
                let head = joined(head.as_str(), ": ");
                joined(head.as_str(), stderr.as_str())
            },
            BridgeError::EmptyOutput => "bridge command produced empty output".to_owned(),
        }
    }

    /// The failure in words, as the argument bridge reports it.
    fn argument_message(&self) -> (out: String)
        ensures
            out@ == argument_text(self@),
    {
        match self {
            BridgeError::MissingCommand => "GPT integration missing: set GPT_BRIDGE_CMD to a command that reads prompt from argv[1] and prints the answer to stdout".to_owned(),
            BridgeError::Timeout => "GPT bridge timeout".to_owned(),
            BridgeError::SpawnFailure(reason) => joined(
                "GPT bridge failed to start: ",
                reason.as_str(),
            ),
            BridgeError::NonZeroExit { code, stderr } => {
                let shown = code_or_unknown_text(*code);
                let head = joined("GPT bridge exited with status ", shown.as_str());
                let head = joined(head.as_str(), ": ");
                joined(head.as_str(), stderr.as_str())
            },
            BridgeError::EmptyOutput => "GPT bridge returned empty output".to_owned(),
        }
    }

    /// The failure in words, as the browser bridge reports it.
    fn browser_message(&self, status: &str) -> (out: String)
        ensures
            out@ == browser_text(self@, status@),
    {
        match self {
            BridgeError::MissingCommand => "Browser automation command is missing".to_owned(),
            BridgeError::Timeout => "ChatGPT browser automation timeout".to_owned(),
            BridgeError::SpawnFailure(reason) => joined(
                "Failed to start browser automation command: ",
                reason.as_str(),
            ),
            BridgeError::NonZeroExit { code, stderr } => browser_exit_message(
                stderr.as_str(),
                status,
            ),
            BridgeError::EmptyOutput => "Browser automation did not return an answer".to_owned(),
        }
    }
}

impl BridgeError {
    /// The failure in words, as the bridge of the given kind reports one
    /// that happened before any process ended.
    pub fn describe(&self, kind: BridgeKind) -> (out: String)
        ensures
            out@ == failure_text(kind, self@, Seq::empty()),
    {
        proof {
            reveal_strlit("");
            assert(""@ =~= Seq::<char>::empty());
        }
        failure_message(kind, self, "")
    }
}

/// The message of a bridge failure, as the bridge of the given kind words
/// it. `status` says how the process ended; only the browser bridge quotes
/// it, for a process that failed without writing to its standard error.
pub fn failure_message(kind: BridgeKind, error: &BridgeError, status: &str) -> (out: String)
    ensures
        out@ == failure_text(kind, error@, status@),
{
    match kind {
        BridgeKind::Environment => error.message(),
        BridgeKind::Argument => error.argument_message(),
        BridgeKind::Browser => error.browser_message(status),
    }
}

/// How the process of `outcome` ended, in the system's words; empty where no
/// process ended.
pub open spec fn status_of(outcome: ProcessOutcome) -> Seq<char> {
    match outcome {
        ProcessOutcome::Exited { code, status, stdout, stderr } => status@,
        _ => Seq::empty(),
    }
}

/// What a bridge of the given kind hands back for a process outcome: the
/// answer, or the failure in words.
pub open spec fn bridge_reply_text(kind: BridgeKind, outcome: ProcessOutcome) -> Result<
    Seq<char>,
    Seq<char>,
> {
    match verdict(outcome) {
        Ok(answer) => Ok(answer),
        Err(failure) => Err(failure_text(kind, failure, status_of(outcome))),
    }
}

/// The view of an answer or a message.
pub open spec fn reply_view(result: Result<String, String>) -> Result<Seq<char>, Seq<char>> {
    match result {
        Ok(answer) => Ok(answer@),
        Err(message) => Err(message@),
    }
}

/// Judges what came of a bridge command and puts a failure into words.
pub fn bridge_reply(kind: BridgeKind, outcome: &ProcessOutcome) -> (out: Result<String, String>)
    ensures
        reply_view(out) == bridge_reply_text(kind, *outcome),
{
    match bridge_answer(outcome) {
        Ok(answer) => Ok(answer),
        Err(error) => {
            let message = match outcome {
                ProcessOutcome::Exited { code, status, stdout, stderr } => failure_message(
                    kind,
                    &error,
                    status.as_str(),
                ),
                _ => failure_message(kind, &error, ""),
            };
            proof {
                reveal_strlit("");
                assert(""@ =~= Seq::<char>::empty());
            }
            Err(message)
        },
    }
}

/// The prompt that an invocation hands to its command: the value of the
/// variable, or the argument after `--`.
pub open spec fn prompt_of(kind: BridgeKind, invocation: InvocationView) -> Seq<char> {
    match kind {
        BridgeKind::Environment => invocation.env[0].1,
        BridgeKind::Argument => invocation.args[3],
        BridgeKind::Browser => invocation.env[0].1,
    }
}

/// The command of a planned invocation is handed the prompt as it was given,
/// character for character.
pub proof fn lemma_planned_prompt(
    kind: BridgeKind,
    prompt: Seq<char>,
    command: Seq<char>,
    timeout_ms: u64,
)
    ensures
        prompt_of(kind, planned(kind, prompt, command, timeout_ms)) == prompt,
{
}

/// The message of a process that reported failure holds what it wrote to
/// its standard error, whatever the kind of bridge.
pub proof fn lemma_message_holds_stderr(
    kind: BridgeKind,
    code: Option<i32>,
    stderr: Seq<char>,
    status: Seq<char>,
)
    ensures
        contains(failure_text(kind, Failure::NonZeroExit { code, stderr }, status), stderr),
{
    let none = Seq::<char>::empty();
    match kind {
        BridgeKind::Environment => {
            let head = "bridge command exited with code "@ + code_debug(code) + ": "@;
            lemma_contains_part(head, stderr, none);
            assert(head + stderr + none =~= head + stderr);
        },
        BridgeKind::Argument => {
            let head = "GPT bridge exited with status "@ + code_or_unknown(code) + ": "@;
            lemma_contains_part(head, stderr, none);
            assert(head + stderr + none =~= head + stderr);
        },
        BridgeKind::Browser => {
            let hint = if contains(stderr, dependency_signature()) {
                remediation_hint()
            } else {
                none
            };
            if stderr.len() == 0 {
                lemma_contains_part(none, stderr, browser_exit_text(stderr, status));
                assert(none + stderr + browser_exit_text(stderr, status) =~= browser_exit_text(
                    stderr,
                    status,
                ));
            } else {
                lemma_contains_part("Browser automation command failed: "@, stderr, hint);
            }
        },
    }
}

/// An answer of a bridge is never empty, and it neither starts nor ends with
/// white space.
pub proof fn lemma_answer_is_trimmed(outcome: ProcessOutcome)
    ensures
        verdict(outcome) matches Ok(answer) ==> answer.len() > 0 && !is_whitespace(answer.first())
            && !is_whitespace(answer.last()),
{
    if let ProcessOutcome::Exited { code, status, stdout, stderr } = outcome {
        lemma_trimmed(utf8_lossy(stdout@));
    }
}

} // verus!
