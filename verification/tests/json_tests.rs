use roadrunner::exec::{ExecutionOutput, TerminalStream, TerminalStreamType};
use roadrunner::json::{frame_to_json, json_quote};
use roadrunner::lang::RuntimeError;

#[test]
fn quote_plain_text() {
    assert_eq!(json_quote("hello"), "\"hello\"");
    assert_eq!(json_quote(""), "\"\"");
}

#[test]
fn quote_escapes_specials() {
    assert_eq!(json_quote("a\"b"), "\"a\\\"b\"");
    assert_eq!(json_quote("a\\b"), "\"a\\\\b\"");
    assert_eq!(json_quote("a\nb"), "\"a\\nb\"");
    assert_eq!(json_quote("a\rb"), "\"a\\rb\"");
    assert_eq!(json_quote("a\tb"), "\"a\\tb\"");
    assert_eq!(json_quote("a\u{0008}b"), "\"a\\bb\"");
    assert_eq!(json_quote("a\u{000C}b"), "\"a\\fb\"");
    assert_eq!(json_quote("a\u{0001}b"), "\"a\\u0001b\"");
    assert_eq!(json_quote("a\u{001f}b"), "\"a\\u001fb\"");
}

#[test]
fn quoted_text_parses_back() {
    let cases = ["plain", "with \"quotes\"", "line\nbreak", "tab\there", "back\\slash"];
    for case in cases {
        let quoted = json_quote(case);
        let parsed: serde_json::Value = serde_json::from_str(&quoted).unwrap();
        assert_eq!(parsed, serde_json::Value::String(case.to_string()));
    }
}

#[test]
fn output_frame_serializes_with_timestamp() {
    let frame = TerminalStream {
        terminal_type: TerminalStreamType::StandardOutput,
        value: None,
        pipe_value: Some(String::from("hi")),
        nonce: Some(String::from("n1")),
        timestamp: 0,
    };
    let expected_ts = chrono::DateTime::<chrono::Utc>::from_timestamp_nanos(0).to_rfc3339();
    let expected = format!(
        "{{\"type\":\"StandardOutput\",\"pipe_value\":\"hi\",\"nonce\":\"n1\",\"timestamp\":\"{}\"}}",
        expected_ts
    );
    assert_eq!(frame_to_json(&frame), expected);
}

#[test]
fn end_frame_carries_status_payload() {
    let ts: i64 = 1_662_921_288_000_000_000;
    let frame = TerminalStream {
        terminal_type: TerminalStreamType::EndOfOutput,
        value: Some(ExecutionOutput {
            exit_status: String::from("exit status: 0"),
            duration_nanos: 123_456_789,
        }),
        pipe_value: None,
        nonce: Some(String::from("n2")),
        timestamp: ts,
    };
    let text = frame_to_json(&frame);
    let parsed: serde_json::Value = serde_json::from_str(&text).unwrap();
    assert_eq!(parsed["type"], "EndOfOutput");
    assert_eq!(parsed["value"]["exit_status"], "exit status: 0");
    assert_eq!(parsed["value"]["duration"], 123_456_789u64);
    assert_eq!(parsed["nonce"], "n2");
    let expected_ts = chrono::DateTime::<chrono::Utc>::from_timestamp_nanos(ts).to_rfc3339();
    assert_eq!(parsed["timestamp"], expected_ts.as_str());
    assert!(parsed.get("pipe_value").is_none());
}

#[test]
fn run_result_serializes_alone() {
    let output = ExecutionOutput {
        exit_status: String::from("exit status: 1"),
        duration_nanos: 42,
    };
    assert_eq!(output.to_json(), "{\"exit_status\":\"exit status: 1\",\"duration\":42}");
}

#[test]
fn duration_renders_largest_value() {
    let frame = TerminalStream {
        terminal_type: TerminalStreamType::EndOfOutput,
        value: Some(ExecutionOutput {
            exit_status: String::from("exit status: 0"),
            duration_nanos: u64::MAX,
        }),
        pipe_value: None,
        nonce: None,
        timestamp: 0,
    };
    let text = frame_to_json(&frame);
    assert!(text.contains(&format!("\"duration\":{}", u64::MAX)));
}

#[test]
fn error_without_detail_serializes_bare() {
    assert_eq!(RuntimeError::NoExecutor.as_string(), "{\"type\":\"NoExecutor\"}");
}

#[test]
fn errors_with_detail_carry_value() {
    assert_eq!(
        RuntimeError::Capture(String::from("boom")).as_string(),
        "{\"type\":\"Capture\",\"value\":\"boom\"}"
    );
    assert_eq!(
        RuntimeError::WriteFailed(String::from("disk full")).as_string(),
        "{\"type\":\"WriteFailed\",\"value\":\"disk full\"}"
    );
    assert_eq!(
        RuntimeError::InitializationFailure(String::from("no compiler")).as_string(),
        "{\"type\":\"InitializationFailure\",\"value\":\"no compiler\"}"
    );
    assert_eq!(
        RuntimeError::ParseInput(String::from("bad json")).as_string(),
        "{\"type\":\"ParseInput\",\"value\":\"bad json\"}"
    );
}

#[test]
fn error_json_escapes_detail_text() {
    let text = RuntimeError::ParseInput(String::from("expected \"source\"\n")).to_string();
    let parsed: serde_json::Value = serde_json::from_str(&text).unwrap();
    assert_eq!(parsed["type"], "ParseInput");
    assert_eq!(parsed["value"], "expected \"source\"\n");
}
