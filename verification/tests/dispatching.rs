use wrapper_service::api::{
    bad_request_reply, error_reply_of, not_found_reply, object_of, reply_for, validated_prompt,
};
use wrapper_service::dispatch::{plan_ask, select_strategy};
use wrapper_service::{
    begin, finish_run, finish_send, AppState, AskRequest, AskResponse, BridgeKind, ErrorResponse,
    HttpOutcome, Invocation, ProcessOutcome, Reply, ReplyBody, ResponseBody, Step, Strategy, Work,
};

const MISSING: &str = "GPT integration missing: set GPT_BRIDGE_CMD to a command that reads prompt from argv[1] and prints the answer to stdout";

fn state(cookie: &str, browser_cmd: &str, bridge_cmd: &str) -> AppState {
    AppState {
        chatgpt_session_cookie: cookie.to_string(),
        chatgpt_backend_url: "http://127.0.0.1:1/backend-api/conversation".to_string(),
        chatgpt_model: "auto".to_string(),
        timeout_ms: 5_000,
        chatgpt_browser_cmd: browser_cmd.to_string(),
        bridge_cmd: bridge_cmd.to_string(),
    }
}

fn ask(prompt: &str) -> AskRequest {
    AskRequest { prompt: prompt.to_string() }
}

fn error(status: u16, text: &str) -> Reply {
    Reply { status, body: ReplyBody::Error(ErrorResponse { error: text.to_string() }) }
}

fn exited(code: i32, stdout: &[u8], stderr: &[u8]) -> ProcessOutcome {
    ProcessOutcome::Exited {
        code: Some(code),
        status: format!("exit status: {code}"),
        stdout: stdout.to_vec(),
        stderr: stderr.to_vec(),
    }
}

#[test]
fn credential_selects_the_web_relay_before_any_bridge() {
    assert_eq!(select_strategy(&state("c=1", "", "")), Some(Strategy::WebRelay));
    assert_eq!(select_strategy(&state("c=1", "browser", "bridge")), Some(Strategy::WebRelay));
    assert_eq!(select_strategy(&state(" ", "browser", "bridge")), Some(Strategy::WebRelay));
}

#[test]
fn without_credential_the_browser_bridge_goes_before_the_argument_bridge() {
    assert_eq!(select_strategy(&state("", "browser", "bridge")), Some(Strategy::BrowserBridge));
    assert_eq!(select_strategy(&state("", "browser", "")), Some(Strategy::BrowserBridge));
    assert_eq!(select_strategy(&state("", "", "bridge")), Some(Strategy::ArgumentBridge));
}

#[test]
fn nothing_configured_selects_nothing() {
    assert_eq!(select_strategy(&state("", "", "")), None);
}

#[test]
fn prompt_is_trimmed_before_anything_else() {
    assert_eq!(validated_prompt(&ask("  hello  ")), Some("hello".to_string()));
    assert_eq!(validated_prompt(&ask("a  b\n")), Some("a  b".to_string()));
    assert_eq!(validated_prompt(&ask("")), None);
    assert_eq!(validated_prompt(&ask(" \t\r\n")), None);
    assert_eq!(validated_prompt(&ask("\u{3000}")), None);
}

#[test]
fn blank_prompt_is_refused_with_400_under_every_configuration() {
    let expected = error(400, "Field \"prompt\" must be a non-empty string");
    for st in [
        state("", "", ""),
        state("c=1", "", ""),
        state("", "browser", ""),
        state("", "", "bridge"),
        state("bad\n", "browser", "bridge"),
    ] {
        for prompt in ["", " ", "\n\t  \r\n"] {
            assert_eq!(begin(&ask(prompt), &st), Step::Respond(expected.clone()));
        }
    }
    assert_eq!(bad_request_reply(), expected);
}

#[test]
fn missing_configuration_is_reported_with_502_and_nothing_to_do() {
    let st = state("", "", "");
    for prompt in ["hello", "  x ", "anything at all"] {
        assert_eq!(begin(&ask(prompt), &st), Step::Respond(error(502, MISSING)));
    }
    assert_eq!(plan_ask("hello", &st), Err(MISSING.to_string()));
}

#[test]
fn argument_bridge_is_handed_the_trimmed_prompt() {
    let st = state("", "", "printf '%s' \"$1\"");
    assert_eq!(
        begin(&ask("  hello \n"), &st),
        Step::Perform(Work::Run {
            kind: BridgeKind::Argument,
            invocation: Invocation {
                program: "bash".to_string(),
                args: vec![
                    "-lc".to_string(),
                    "printf '%s' \"$1\"".to_string(),
                    "--".to_string(),
                    "hello".to_string(),
                ],
                env: vec![],
                timeout_ms: 5_000,
            },
        })
    );
}

#[test]
fn browser_bridge_is_handed_the_trimmed_prompt() {
    let st = state("", "python3 bridge.py", "unused");
    assert_eq!(
        begin(&ask("\thello  world "), &st),
        Step::Perform(Work::Run {
            kind: BridgeKind::Browser,
            invocation: Invocation {
                program: "sh".to_string(),
                args: vec!["-lc".to_string(), "python3 bridge.py".to_string()],
                env: vec![("CHATGPT_PROMPT".to_string(), "hello  world".to_string())],
                timeout_ms: 5_000,
            },
        })
    );
}

#[test]
fn web_relay_is_handed_the_trimmed_prompt() {
    let st = state("__Secure-next-auth.session-token=fake", "browser", "bridge");
    match begin(&ask(" hello\n"), &st) {
        Step::Perform(Work::Send(request)) => {
            assert_eq!(request.url, st.chatgpt_backend_url);
            assert_eq!(request.timeout_ms, 5_000);
            assert!(request.body.contains("\"parts\":[\"hello\"]"));
            assert_eq!(request.headers[4].0, "cookie");
            assert_eq!(request.headers[4].1, "__Secure-next-auth.session-token=fake");
        }
        other => panic!("unexpected step {other:?}"),
    }
}

#[test]
fn credential_that_cannot_be_sent_is_reported_with_502_before_sending() {
    let st = state("bad\ncookie", "browser", "bridge");
    assert_eq!(
        begin(&ask("hello"), &st),
        Step::Respond(error(
            502,
            "Invalid CHATGPT_SESSION_COOKIE header value: failed to parse header value"
        ))
    );
}

#[test]
fn bridge_answer_becomes_200_with_answer_body() {
    let reply = finish_run(BridgeKind::Argument, &exited(0, b"hello", b""));
    assert_eq!(
        reply,
        Reply { status: 200, body: ReplyBody::Answer(AskResponse { answer: "hello".to_string() }) }
    );
    assert_eq!(reply.body_json(), "{\"answer\":\"hello\"}");
}

#[test]
fn bridge_failure_becomes_502_whose_message_holds_the_standard_error() {
    let reply = finish_run(BridgeKind::Argument, &exited(1, b"", b"boom"));
    assert_eq!(reply, error(502, "GPT bridge exited with status 1: boom"));
    assert_eq!(reply.body_json(), "{\"error\":\"GPT bridge exited with status 1: boom\"}");
    let reply = finish_run(BridgeKind::Browser, &exited(1, b"", b"boom"));
    assert_eq!(reply, error(502, "Browser automation command failed: boom"));
    let reply = finish_run(BridgeKind::Environment, &exited(1, b"", b"boom"));
    assert_eq!(reply, error(502, "bridge command exited with code Some(1): boom"));
}

#[test]
fn bridge_timeout_becomes_502_with_timeout_message() {
    assert_eq!(
        finish_run(BridgeKind::Argument, &ProcessOutcome::TimedOut),
        error(502, "GPT bridge timeout")
    );
    assert_eq!(
        finish_run(BridgeKind::Browser, &ProcessOutcome::TimedOut),
        error(502, "ChatGPT browser automation timeout")
    );
}

#[test]
fn relayed_answer_becomes_200_with_answer_body() {
    let body = "data: {\"message\":{\"content\":{\"parts\":[\"hello\"]}}}\n\ndata: [DONE]\n";
    let reply = finish_send(&HttpOutcome::Responded {
        status: 200,
        body: ResponseBody::Text(body.to_string()),
    });
    assert_eq!(reply.status, 200);
    assert_eq!(reply.body_json(), "{\"answer\":\"hello\"}");
}

#[test]
fn relay_failure_becomes_502() {
    assert_eq!(finish_send(&HttpOutcome::TimedOut), error(502, "ChatGPT web request timeout"));
    assert_eq!(
        finish_send(&HttpOutcome::Responded {
            status: 401,
            body: ResponseBody::Text("denied".to_string())
        }),
        error(502, "ChatGPT web request failed (401 Unauthorized): denied")
    );
}

#[test]
fn unmatched_route_gets_404() {
    assert_eq!(not_found_reply(), error(404, "Not found"));
    assert_eq!(not_found_reply().body_json(), "{\"error\":\"Not found\"}");
}

#[test]
fn reply_for_maps_result_to_status() {
    assert_eq!(reply_for(Ok("a".to_string())).status, 200);
    assert_eq!(reply_for(Err("e".to_string())), error(502, "e"));
    assert_eq!(error_reply_of(418, "teapot".to_string()), error(418, "teapot"));
}

#[test]
fn body_is_json_with_escaped_text() {
    let reply = reply_for(Ok("he said \"hi\"\n\\ \t ünï \u{1}".to_string()));
    assert_eq!(
        reply.body_json(),
        "{\"answer\":\"he said \\\"hi\\\"\\n\\\\ \\t ünï \\u0001\"}"
    );
    let parsed: serde_json::Value = serde_json::from_str(&reply.body_json()).unwrap();
    assert_eq!(parsed["answer"], serde_json::Value::String("he said \"hi\"\n\\ \t ünï \u{1}".to_string()));
    let reply = reply_for(Err(String::new()));
    assert_eq!(reply.body_json(), "{\"error\":\"\"}");
}

#[test]
fn object_has_one_member() {
    assert_eq!(object_of("answer", "\"hello\""), "{\"answer\":\"hello\"}");
    assert_eq!(object_of("n", "1"), "{\"n\":1}");
}

#[test]
fn text_that_needs_no_escape_stands_between_quotes_as_it_is() {
    let mut plain = String::new();
    for code in 0x20u32..0x250 {
        let c = char::from_u32(code).unwrap();
        if c != '"' && c != '\\' {
            plain.push(c);
        }
    }
    plain.push_str("\u{7f}\u{2028}世界\u{1f600}");
    assert_eq!(reply_for(Ok(plain.clone())).body_json(), format!("{{\"answer\":\"{plain}\"}}"));
    assert_eq!(reply_for(Err(plain.clone())).body_json(), format!("{{\"error\":\"{plain}\"}}"));
}

#[test]
fn quote_backslash_and_control_characters_are_escaped() {
    for (text, quoted) in [
        ("\"", "\\\""),
        ("\\", "\\\\"),
        ("\n", "\\n"),
        ("\u{0}", "\\u0000"),
        ("\u{1f}", "\\u001f"),
        ("\u{8}", "\\b"),
        ("\u{c}", "\\f"),
    ] {
        assert_eq!(
            reply_for(Ok(text.to_string())).body_json(),
            format!("{{\"answer\":\"{quoted}\"}}")
        );
    }
}
