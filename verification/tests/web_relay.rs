use serde_json::Value;
use wrapper_service::relay::{
    body_of, relay_answer, relay_reply, relay_request, status_failure_message, TransportStage,
};
use wrapper_service::{AppState, HttpOutcome, RelayError, ResponseBody};

fn state(cookie: &str, model: &str) -> AppState {
    AppState {
        chatgpt_session_cookie: cookie.to_string(),
        chatgpt_backend_url: "http://127.0.0.1:1/backend-api/conversation".to_string(),
        chatgpt_model: model.to_string(),
        timeout_ms: 5_000,
        chatgpt_browser_cmd: String::new(),
        bridge_cmd: String::new(),
    }
}

fn text(s: &str) -> Value {
    Value::String(s.to_string())
}

fn expected_body(prompt: &str, model: &str) -> String {
    let mut author = serde_json::Map::new();
    author.insert("role".to_string(), text("user"));
    let mut content = serde_json::Map::new();
    content.insert("content_type".to_string(), text("text"));
    content.insert("parts".to_string(), Value::Array(vec![text(prompt)]));
    let mut message = serde_json::Map::new();
    message.insert("id".to_string(), text("msg-1"));
    message.insert("author".to_string(), Value::Object(author));
    message.insert("content".to_string(), Value::Object(content));
    let mut root = serde_json::Map::new();
    root.insert("action".to_string(), text("next"));
    root.insert("messages".to_string(), Value::Array(vec![Value::Object(message)]));
    root.insert("parent_message_id".to_string(), text("msg-0"));
    root.insert("model".to_string(), text(model));
    root.insert("history_and_training_disabled".to_string(), Value::Bool(true));
    serde_json::to_string(&Value::Object(root)).unwrap()
}

fn responded(status: u16, body: &str) -> HttpOutcome {
    HttpOutcome::Responded { status, body: ResponseBody::Text(body.to_string()) }
}

#[test]
fn request_goes_to_configured_endpoint_with_fixed_headers_and_credential() {
    let request = relay_request("hello", &state("__Secure-next-auth.session-token=fake", "auto"))
        .unwrap();
    assert_eq!(request.url, "http://127.0.0.1:1/backend-api/conversation");
    assert_eq!(request.timeout_ms, 5_000);
    let headers: Vec<(&str, &str)> =
        request.headers.iter().map(|(n, v)| (n.as_str(), v.as_str())).collect();
    assert_eq!(
        headers,
        vec![
            ("content-type", "application/json"),
            ("origin", "https://chatgpt.com"),
            ("referer", "https://chatgpt.com/"),
            ("user-agent", "Mozilla/5.0"),
            ("cookie", "__Secure-next-auth.session-token=fake"),
        ]
    );
}

#[test]
fn request_body_is_exact() {
    let request = relay_request("hello", &state("c=1", "auto")).unwrap();
    assert_eq!(
        request.body,
        "{\"action\":\"next\",\"history_and_training_disabled\":true,\"messages\":[{\"author\":{\"role\":\"user\"},\"content\":{\"content_type\":\"text\",\"parts\":[\"hello\"]},\"id\":\"msg-1\"}],\"model\":\"auto\",\"parent_message_id\":\"msg-0\"}"
    );
}

#[test]
fn request_body_is_what_serde_json_writes_for_the_same_value() {
    for (prompt, model) in [
        ("hello", "auto"),
        ("say \"hi\"\nand \\ leave", "gpt-4o"),
        ("tab\there \u{1} \u{7f} ünï 世界 \u{1f600}", "m\"odel"),
        ("", ""),
    ] {
        let request = relay_request(prompt, &state("c=1", model)).unwrap();
        assert_eq!(request.body, expected_body(prompt, model));
        let parsed: Value = serde_json::from_str(&request.body).unwrap();
        assert_eq!(parsed["messages"][0]["content"]["parts"][0], text(prompt));
        assert_eq!(parsed["model"], text(model));
    }
}

#[test]
fn credential_that_is_no_header_value_is_a_configuration_error() {
    for cookie in ["line\nbreak", "a\rb", "nul\0", "del\u{7f}", "\u{1b}[0m"] {
        assert_eq!(
            relay_request("hello", &state(cookie, "auto")),
            Err(RelayError::ConfigurationError("failed to parse header value".to_string())),
            "{cookie:?}"
        );
    }
}

#[test]
fn credential_may_hold_tab_and_characters_outside_ascii() {
    for cookie in ["a\tb", "a b", "ünï=世界", "~!@#$%^&*()", "\u{80}"] {
        let request = relay_request("hello", &state(cookie, "auto")).unwrap();
        assert_eq!(request.headers[4].1, cookie);
    }
}

#[test]
fn configuration_error_message_names_the_variable() {
    let err = relay_request("hello", &state("bad\n", "auto")).unwrap_err();
    assert_eq!(
        err.message(),
        "Invalid CHATGPT_SESSION_COOKIE header value: failed to parse header value"
    );
}

#[test]
fn answer_comes_from_the_streamed_body_of_a_success() {
    let body = "data: {\"message\":{\"content\":{\"parts\":[\"hello\"]}}}\n\ndata: [DONE]\n";
    assert_eq!(relay_answer(&responded(200, body)), Ok("hello".to_string()));
    assert_eq!(relay_answer(&responded(299, body)), Ok("hello".to_string()));
    assert_eq!(relay_reply(&responded(204, body)), Ok("hello".to_string()));
}

#[test]
fn success_without_fragment_is_no_answer() {
    assert_eq!(relay_answer(&responded(200, "")), Err(RelayError::NoAnswer));
    assert_eq!(relay_answer(&responded(200, "data: [DONE]\n")), Err(RelayError::NoAnswer));
    assert_eq!(
        relay_reply(&responded(200, "{\"parts\":[\"not an event\"]}")),
        Err("ChatGPT response did not contain an answer".to_string())
    );
}

#[test]
fn status_outside_200_to_299_is_a_status_failure_with_the_body() {
    let body = "data: {\"parts\":[\"hello\"]}";
    for status in [100, 199, 300, 301, 404, 500, 999] {
        assert_eq!(
            relay_answer(&responded(status, body)),
            Err(RelayError::HttpStatusFailure { status, body: body.to_string() })
        );
    }
}

#[test]
fn unreadable_body_of_a_failure_is_replaced_by_a_placeholder() {
    let outcome = HttpOutcome::Responded {
        status: 503,
        body: ResponseBody::Unreadable("connection reset".to_string()),
    };
    assert_eq!(
        relay_answer(&outcome),
        Err(RelayError::HttpStatusFailure {
            status: 503,
            body: "<unable to read response body>".to_string()
        })
    );
    assert_eq!(
        relay_reply(&outcome),
        Err("ChatGPT web request failed (503 Service Unavailable): <unable to read response body>"
            .to_string())
    );
}

#[test]
fn unreadable_body_of_a_success_is_a_transport_failure() {
    let outcome = HttpOutcome::Responded {
        status: 200,
        body: ResponseBody::Unreadable("connection reset".to_string()),
    };
    assert_eq!(
        relay_answer(&outcome),
        Err(RelayError::TransportFailure {
            stage: TransportStage::Read,
            reason: "connection reset".to_string()
        })
    );
    assert_eq!(
        relay_reply(&outcome),
        Err("Failed to read ChatGPT response body: connection reset".to_string())
    );
}

#[test]
fn send_failure_and_timeout_are_told_apart() {
    assert_eq!(relay_answer(&HttpOutcome::TimedOut), Err(RelayError::Timeout));
    assert_eq!(relay_reply(&HttpOutcome::TimedOut), Err("ChatGPT web request timeout".to_string()));
    assert_eq!(
        relay_answer(&HttpOutcome::SendFailed("refused".to_string())),
        Err(RelayError::TransportFailure {
            stage: TransportStage::Send,
            reason: "refused".to_string()
        })
    );
    assert_eq!(
        relay_reply(&HttpOutcome::SendFailed("refused".to_string())),
        Err("Failed to send ChatGPT request: refused".to_string())
    );
}

#[test]
fn status_failure_message_shows_status_line_and_body() {
    assert_eq!(
        RelayError::HttpStatusFailure { status: 404, body: "nothing here".to_string() }.message(),
        "ChatGPT web request failed (404 Not Found): nothing here"
    );
    assert_eq!(
        RelayError::HttpStatusFailure { status: 429, body: String::new() }.message(),
        "ChatGPT web request failed (429 Too Many Requests): "
    );
    assert_eq!(
        RelayError::HttpStatusFailure { status: 799, body: "x".to_string() }.message(),
        "ChatGPT web request failed (799 <unknown status code>): x"
    );
}

#[test]
fn number_that_is_no_status_code_is_shown_bare() {
    assert_eq!(
        RelayError::HttpStatusFailure { status: 99, body: "x".to_string() }.message(),
        "ChatGPT web request failed (99): x"
    );
    assert_eq!(
        RelayError::HttpStatusFailure { status: 1000, body: "x".to_string() }.message(),
        "ChatGPT web request failed (1000): x"
    );
    assert_eq!(
        RelayError::HttpStatusFailure { status: 0, body: "x".to_string() }.message(),
        "ChatGPT web request failed (0): x"
    );
}

#[test]
fn body_is_put_round_the_quoted_prompt_and_model() {
    assert_eq!(
        body_of("<P>", "<M>"),
        "{\"action\":\"next\",\"history_and_training_disabled\":true,\"messages\":[{\"author\":{\"role\":\"user\"},\"content\":{\"content_type\":\"text\",\"parts\":[<P>]},\"id\":\"msg-1\"}],\"model\":<M>,\"parent_message_id\":\"msg-0\"}"
    );
}

#[test]
fn status_failure_message_is_put_round_status_and_body() {
    assert_eq!(
        status_failure_message("418 I'm a teapot", "short and stout"),
        "ChatGPT web request failed (418 I'm a teapot): short and stout"
    );
    assert_eq!(status_failure_message("", ""), "ChatGPT web request failed (): ");
}
