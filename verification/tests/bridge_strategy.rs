use wrapper_service::bridge::{
    bridge_answer, bridge_invocation, bridge_reply, failure_message, judge_exit, plan_invocation,
};
use wrapper_service::{BridgeConfig, BridgeError, BridgeKind, Invocation, ProcessOutcome};

fn exited(code: Option<i32>, stdout: &[u8], stderr: &[u8]) -> ProcessOutcome {
    let status = match code {
        Some(c) => format!("exit status: {c}"),
        None => "signal: 9 (SIGKILL)".to_string(),
    };
    ProcessOutcome::Exited { code, status, stdout: stdout.to_vec(), stderr: stderr.to_vec() }
}

#[test]
fn config_keeps_what_it_was_given() {
    let cfg = BridgeConfig::new("echo hi", 1500);
    assert_eq!(cfg.bridge_cmd(), "echo hi");
    assert_eq!(cfg.timeout_ms(), 1500);
    let cfg = BridgeConfig::new("", 0);
    assert_eq!(cfg.bridge_cmd(), "");
    assert_eq!(cfg.timeout_ms(), 0);
}

#[test]
fn environment_bridge_runs_sh_with_prompt_in_variable() {
    let cfg = BridgeConfig::new("my-bridge --fast", 2500);
    assert_eq!(
        bridge_invocation("what is up", &cfg),
        Ok(Invocation {
            program: "sh".to_string(),
            args: vec!["-c".to_string(), "my-bridge --fast".to_string()],
            env: vec![("BRIDGE_PROMPT".to_string(), "what is up".to_string())],
            timeout_ms: 2500,
        })
    );
}

#[test]
fn environment_bridge_takes_blank_command_for_missing() {
    assert_eq!(bridge_invocation("p", &BridgeConfig::new("", 1)), Err(BridgeError::MissingCommand));
    assert_eq!(
        bridge_invocation("p", &BridgeConfig::new("  \t\n", 1)),
        Err(BridgeError::MissingCommand)
    );
    assert!(bridge_invocation("p", &BridgeConfig::new(" x ", 1)).is_ok());
}

#[test]
fn environment_bridge_hands_command_on_untrimmed() {
    let inv = bridge_invocation("p", &BridgeConfig::new(" x ", 1)).unwrap();
    assert_eq!(inv.args, vec!["-c", " x "]);
}

#[test]
fn argument_bridge_runs_bash_with_prompt_after_double_dash() {
    assert_eq!(
        plan_invocation(BridgeKind::Argument, "hello", "printf '%s' \"$1\"", 5000),
        Ok(Invocation {
            program: "bash".to_string(),
            args: vec![
                "-lc".to_string(),
                "printf '%s' \"$1\"".to_string(),
                "--".to_string(),
                "hello".to_string(),
            ],
            env: vec![],
            timeout_ms: 5000,
        })
    );
}

#[test]
fn browser_bridge_runs_sh_login_shell_with_prompt_in_variable() {
    assert_eq!(
        plan_invocation(BridgeKind::Browser, "hi", "python3 bridge.py", 20_000),
        Ok(Invocation {
            program: "sh".to_string(),
            args: vec!["-lc".to_string(), "python3 bridge.py".to_string()],
            env: vec![("CHATGPT_PROMPT".to_string(), "hi".to_string())],
            timeout_ms: 20_000,
        })
    );
}

#[test]
fn argument_and_browser_bridge_take_only_empty_command_for_missing() {
    for kind in [BridgeKind::Argument, BridgeKind::Browser] {
        assert_eq!(plan_invocation(kind, "p", "", 1), Err(BridgeError::MissingCommand));
        assert!(plan_invocation(kind, "p", " ", 1).is_ok());
    }
}

#[test]
fn prompt_is_handed_on_as_it_is() {
    let prompt = "  spaced\n\"quoted\" $HOME `x` ünï ";
    let inv = plan_invocation(BridgeKind::Argument, prompt, "cmd", 1).unwrap();
    assert_eq!(inv.args[3], prompt);
    let inv = plan_invocation(BridgeKind::Browser, prompt, "cmd", 1).unwrap();
    assert_eq!(inv.env[0].1, prompt);
    let inv = plan_invocation(BridgeKind::Environment, prompt, "cmd", 1).unwrap();
    assert_eq!(inv.env[0].1, prompt);
}

#[test]
fn answer_is_trimmed_standard_output_of_successful_process() {
    assert_eq!(bridge_answer(&exited(Some(0), b"hello", b"")), Ok("hello".to_string()));
    assert_eq!(
        bridge_answer(&exited(Some(0), b"\n  two words \r\n", b"warning")),
        Ok("two words".to_string())
    );
}

#[test]
fn successful_process_without_output_is_empty_output() {
    assert_eq!(bridge_answer(&exited(Some(0), b"", b"")), Err(BridgeError::EmptyOutput));
    assert_eq!(bridge_answer(&exited(Some(0), b" \n\t", b"noise")), Err(BridgeError::EmptyOutput));
}

#[test]
fn failed_process_is_non_zero_exit_with_trimmed_standard_error() {
    assert_eq!(
        bridge_answer(&exited(Some(3), b"ignored", b"  boom\n")),
        Err(BridgeError::NonZeroExit { code: Some(3), stderr: "boom".to_string() })
    );
    assert_eq!(
        bridge_answer(&exited(Some(-1), b"", b"")),
        Err(BridgeError::NonZeroExit { code: Some(-1), stderr: String::new() })
    );
    assert_eq!(
        bridge_answer(&exited(None, b"out", b"killed")),
        Err(BridgeError::NonZeroExit { code: None, stderr: "killed".to_string() })
    );
}

#[test]
fn timeout_and_spawn_failure_are_told_apart() {
    assert_eq!(bridge_answer(&ProcessOutcome::TimedOut), Err(BridgeError::Timeout));
    assert_eq!(
        bridge_answer(&ProcessOutcome::SpawnFailed("No such file or directory".to_string())),
        Err(BridgeError::SpawnFailure("No such file or directory".to_string()))
    );
}

#[test]
fn output_that_is_no_utf8_is_read_with_replacement_characters() {
    assert_eq!(
        bridge_answer(&exited(Some(0), b"a\xffb", b"")),
        Ok("a\u{fffd}b".to_string())
    );
    assert_eq!(
        bridge_answer(&exited(Some(0), "grüß".as_bytes(), b"")),
        Ok("grüß".to_string())
    );
    assert_eq!(
        bridge_answer(&exited(Some(1), b"", b"\xc3(")),
        Err(BridgeError::NonZeroExit { code: Some(1), stderr: "\u{fffd}(".to_string() })
    );
}

#[test]
fn environment_bridge_messages() {
    assert_eq!(BridgeError::MissingCommand.message(), "bridge command is missing");
    assert_eq!(BridgeError::Timeout.message(), "bridge command timed out");
    assert_eq!(
        BridgeError::SpawnFailure("denied".to_string()).message(),
        "failed to execute bridge command: denied"
    );
    assert_eq!(
        BridgeError::NonZeroExit { code: Some(2), stderr: "boom".to_string() }.message(),
        "bridge command exited with code Some(2): boom"
    );
    assert_eq!(
        BridgeError::NonZeroExit { code: Some(-7), stderr: String::new() }.message(),
        "bridge command exited with code Some(-7): "
    );
    assert_eq!(
        BridgeError::NonZeroExit { code: None, stderr: "x".to_string() }.message(),
        "bridge command exited with code None: x"
    );
    assert_eq!(BridgeError::EmptyOutput.message(), "bridge command produced empty output");
}

#[test]
fn message_agrees_with_debug_formatting_of_the_code() {
    for code in [Some(0), Some(1), Some(255), Some(-1), Some(i32::MAX), Some(i32::MIN), None] {
        let err = BridgeError::NonZeroExit { code, stderr: "e".to_string() };
        assert_eq!(err.message(), format!("bridge command exited with code {:?}: {}", code, "e"));
    }
}

#[test]
fn argument_bridge_messages() {
    let kind = BridgeKind::Argument;
    assert_eq!(
        failure_message(kind, &BridgeError::MissingCommand, ""),
        "GPT integration missing: set GPT_BRIDGE_CMD to a command that reads prompt from argv[1] and prints the answer to stdout"
    );
    assert_eq!(failure_message(kind, &BridgeError::Timeout, ""), "GPT bridge timeout");
    assert_eq!(
        failure_message(kind, &BridgeError::SpawnFailure("nope".to_string()), ""),
        "GPT bridge failed to start: nope"
    );
    assert_eq!(
        failure_message(
            kind,
            &BridgeError::NonZeroExit { code: Some(2), stderr: "boom".to_string() },
            "exit status: 2"
        ),
        "GPT bridge exited with status 2: boom"
    );
    assert_eq!(
        failure_message(
            kind,
            &BridgeError::NonZeroExit { code: None, stderr: "boom".to_string() },
            "signal: 9"
        ),
        "GPT bridge exited with status unknown: boom"
    );
    assert_eq!(
        failure_message(kind, &BridgeError::EmptyOutput, ""),
        "GPT bridge returned empty output"
    );
}

#[test]
fn browser_bridge_messages() {
    let kind = BridgeKind::Browser;
    assert_eq!(
        failure_message(kind, &BridgeError::MissingCommand, ""),
        "Browser automation command is missing"
    );
    assert_eq!(
        failure_message(kind, &BridgeError::Timeout, ""),
        "ChatGPT browser automation timeout"
    );
    assert_eq!(
        failure_message(kind, &BridgeError::SpawnFailure("nope".to_string()), ""),
        "Failed to start browser automation command: nope"
    );
    assert_eq!(
        failure_message(
            kind,
            &BridgeError::NonZeroExit { code: Some(1), stderr: "crashed".to_string() },
            "exit status: 1"
        ),
        "Browser automation command failed: crashed"
    );
    assert_eq!(
        failure_message(
            kind,
            &BridgeError::NonZeroExit { code: Some(1), stderr: String::new() },
            "exit status: 1"
        ),
        "Browser automation command failed with status exit status: 1"
    );
    assert_eq!(
        failure_message(kind, &BridgeError::EmptyOutput, ""),
        "Browser automation did not return an answer"
    );
}

#[test]
fn browser_bridge_adds_hint_where_automation_library_is_missing() {
    let stderr = "Traceback (most recent call last):\nModuleNotFoundError: No module named 'playwright'";
    let message = failure_message(
        BridgeKind::Browser,
        &BridgeError::NonZeroExit { code: Some(1), stderr: stderr.to_string() },
        "exit status: 1",
    );
    assert_eq!(
        message,
        format!(
            "Browser automation command failed: {stderr} (hint: install the browser automation dependency: pip install playwright && playwright install chromium)"
        )
    );
    // the other bridges add nothing
    let plain = failure_message(
        BridgeKind::Argument,
        &BridgeError::NonZeroExit { code: Some(1), stderr: stderr.to_string() },
        "exit status: 1",
    );
    assert_eq!(plain, format!("GPT bridge exited with status 1: {stderr}"));
}

#[test]
fn describe_words_a_failure_without_process_status() {
    assert_eq!(
        BridgeError::MissingCommand.describe(BridgeKind::Environment),
        "bridge command is missing"
    );
    assert_eq!(BridgeError::Timeout.describe(BridgeKind::Argument), "GPT bridge timeout");
    assert_eq!(
        BridgeError::NonZeroExit { code: Some(4), stderr: String::new() }
            .describe(BridgeKind::Browser),
        "Browser automation command failed with status "
    );
}

#[test]
fn bridge_reply_gives_answer_or_message() {
    assert_eq!(
        bridge_reply(BridgeKind::Argument, &exited(Some(0), b" hello\n", b"")),
        Ok("hello".to_string())
    );
    assert_eq!(
        bridge_reply(BridgeKind::Argument, &exited(Some(1), b"", b"boom\n")),
        Err("GPT bridge exited with status 1: boom".to_string())
    );
    assert_eq!(
        bridge_reply(BridgeKind::Browser, &exited(Some(1), b"", b"")),
        Err("Browser automation command failed with status exit status: 1".to_string())
    );
    assert_eq!(
        bridge_reply(BridgeKind::Browser, &exited(None, b"", b" ")),
        Err("Browser automation command failed with status signal: 9 (SIGKILL)".to_string())
    );
    assert_eq!(
        bridge_reply(BridgeKind::Environment, &ProcessOutcome::TimedOut),
        Err("bridge command timed out".to_string())
    );
    assert_eq!(
        bridge_reply(BridgeKind::Browser, &ProcessOutcome::SpawnFailed("gone".to_string())),
        Err("Failed to start browser automation command: gone".to_string())
    );
    assert_eq!(
        bridge_reply(BridgeKind::Environment, &exited(Some(0), b"", b"")),
        Err("bridge command produced empty output".to_string())
    );
}

#[test]
fn judge_exit_decides_by_code_first_and_output_second() {
    let text = |s: &str| s.to_string();
    assert_eq!(judge_exit(Some(0), text("hello"), text("")), Ok(text("hello")));
    assert_eq!(judge_exit(Some(0), text("hello"), text("noise")), Ok(text("hello")));
    assert_eq!(judge_exit(Some(0), text(""), text("noise")), Err(BridgeError::EmptyOutput));
    assert_eq!(
        judge_exit(Some(1), text("hello"), text("boom")),
        Err(BridgeError::NonZeroExit { code: Some(1), stderr: text("boom") })
    );
    assert_eq!(
        judge_exit(None, text(""), text("")),
        Err(BridgeError::NonZeroExit { code: None, stderr: text("") })
    );
}

#[test]
fn output_that_is_utf8_is_read_as_the_text_it_encodes() {
    for text in ["plain", "grüße", "世界 \u{1f600}", "a\u{0}b", "\u{7f}\u{80}\u{10ffff}"] {
        assert_eq!(
            bridge_answer(&exited(Some(0), format!("[{text}]").as_bytes(), b"")),
            Ok(format!("[{text}]"))
        );
        assert_eq!(
            bridge_answer(&exited(Some(2), b"", format!("[{text}]").as_bytes())),
            Err(BridgeError::NonZeroExit { code: Some(2), stderr: format!("[{text}]") })
        );
    }
}
