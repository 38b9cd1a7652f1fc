use soundbridge::error::ConversionError;
use soundbridge::payload::{decode_completion, BackendResult};
use soundbridge::protocol::{completion_of, LineAction, StdoutRelay};

fn texts(items: &[&str]) -> Vec<String> {
    items.iter().map(|s| s.to_string()).collect()
}

fn run(lines: &[&str], exit_code: Option<i32>) -> (Vec<serde_json::Value>, usize, Result<BackendResult, ConversionError>) {
    let mut relay = StdoutRelay::new();
    let mut forwarded = Vec::new();
    let mut malformed = 0;
    for line in lines {
        match relay.on_line(line) {
            LineAction::Forward(v) => forwarded.push(v),
            LineAction::Malformed(_) => malformed += 1,
            LineAction::Skip => {}
        }
    }
    (forwarded, malformed, relay.finish(exit_code))
}

#[test]
fn convert_scenario_completes_with_one_progress_event() {
    let (forwarded, malformed, result) = run(
        &[
            r#"{"event":"progress","pct":50}"#,
            r#"{"event":"complete","status":"ok","message":"done","outputs":["/tmp/out/a.mp3"]}"#,
        ],
        Some(0),
    );
    let progress = forwarded.iter().filter(|v| v["event"] == "progress").count();
    assert_eq!(progress, 1);
    assert_eq!(forwarded.len(), 2);
    assert_eq!(malformed, 0);
    let r = result.ok().unwrap();
    assert_eq!(r.status, "ok");
    assert_eq!(r.message, "done");
    assert_eq!(r.outputs, texts(&["/tmp/out/a.mp3"]));
}

#[test]
fn exit_two_without_output_is_worker_failure() {
    let (forwarded, _, result) = run(&[], Some(2));
    assert!(forwarded.is_empty());
    match result {
        Err(ConversionError::WorkerExitFailure { code, last_line }) => {
            assert_eq!(code, 2);
            assert_eq!(last_line, "");
        }
        _ => panic!("expected a worker exit failure"),
    }
    let e = ConversionError::WorkerExitFailure { code: 2, last_line: String::new() };
    assert_eq!(e.message(), "Python process failed with exit code 2");
}

#[test]
fn failure_message_names_last_line() {
    let e = ConversionError::WorkerExitFailure { code: 3, last_line: "Traceback".to_string() };
    assert_eq!(e.message(), "Python process failed with exit code 3: Traceback");
}

#[test]
fn exit_without_code_counts_as_minus_one() {
    let (_, _, result) = run(&["partial"], None);
    match result {
        Err(ConversionError::WorkerExitFailure { code, last_line }) => {
            assert_eq!(code, -1);
            assert_eq!(last_line, "partial");
        }
        _ => panic!("expected a worker exit failure"),
    }
}

#[test]
fn malformed_lines_are_skipped_in_order() {
    let (forwarded, malformed, result) = run(
        &[
            "not json",
            r#"{"event":"progress","pct":10}"#,
            "{broken",
            r#"{"event":"progress","pct":90}"#,
            "   ",
            r#"{"event":"complete","status":"ok"}"#,
            "trailing garbage",
        ],
        Some(0),
    );
    assert_eq!(malformed, 3);
    assert_eq!(forwarded.len(), 3);
    assert_eq!(forwarded[0]["pct"], 10);
    assert_eq!(forwarded[1]["pct"], 90);
    assert_eq!(forwarded[2]["event"], "complete");
    let r = result.ok().unwrap();
    assert_eq!(r.status, "ok");
}

#[test]
fn nonzero_exit_wins_over_completion() {
    let (_, _, result) = run(
        &[
            r#"{"event":"progress"}"#,
            r#"{"event":"complete","status":"ok"}"#,
        ],
        Some(1),
    );
    match result {
        Err(ConversionError::WorkerExitFailure { code, last_line }) => {
            assert_eq!(code, 1);
            assert_eq!(last_line, r#"{"event":"complete","status":"ok"}"#);
        }
        _ => panic!("expected a worker exit failure"),
    }
}

#[test]
fn zero_exit_without_completion_is_protocol_violation() {
    let (forwarded, _, result) = run(&[r#"{"event":"progress"}"#, r#"{"event":"done"}"#], Some(0));
    assert_eq!(forwarded.len(), 2);
    assert!(matches!(result, Err(ConversionError::ProtocolViolation)));
    assert_eq!(
        ConversionError::ProtocolViolation.message(),
        "Python backend did not return a final status"
    );
}

#[test]
fn second_completion_wins() {
    let (_, _, result) = run(
        &[
            r#"{"event":"complete","status":"ok","message":"first"}"#,
            r#"{"event":"progress"}"#,
            r#"{"event":"complete","status":"error","message":"second","outputs":["b"]}"#,
        ],
        Some(0),
    );
    let r = result.ok().unwrap();
    assert_eq!(r.status, "error");
    assert_eq!(r.message, "second");
    assert_eq!(r.outputs, texts(&["b"]));
}

#[test]
fn lines_are_trimmed_and_blank_lines_skipped() {
    let mut relay = StdoutRelay::new();
    assert!(matches!(relay.on_line("   \t "), LineAction::Skip));
    assert!(matches!(relay.on_line(""), LineAction::Skip));
    match relay.on_line("  oops  ") {
        LineAction::Malformed(t) => assert_eq!(t, "oops"),
        _ => panic!("expected a malformed line"),
    }
    assert_eq!(relay.last_line(), "oops");
    assert!(matches!(relay.on_line("  "), LineAction::Skip));
    assert_eq!(relay.last_line(), "oops");
    match relay.on_line("  {\"event\":\"complete\"}\n") {
        LineAction::Forward(v) => assert_eq!(v["event"], "complete"),
        _ => panic!("expected a forwarded document"),
    }
    assert_eq!(relay.last_line(), "{\"event\":\"complete\"}");
}

#[test]
fn completion_defaults_fill_missing_members() {
    let v: serde_json::Value =
        serde_json::from_str(r#"{"event":"complete","message":7,"outputs":[1,2]}"#).unwrap();
    let r = completion_of(&v).unwrap();
    assert_eq!(r.status, "complete");
    assert_eq!(r.message, "");
    assert!(r.outputs.is_empty());
}

#[test]
fn non_completion_documents_carry_no_result() {
    let v: serde_json::Value = serde_json::from_str(r#"{"event":"progress","status":"ok"}"#).unwrap();
    assert!(completion_of(&v).is_none());
    let v: serde_json::Value = serde_json::from_str(r#"[1,2,3]"#).unwrap();
    assert!(completion_of(&v).is_none());
    let v: serde_json::Value = serde_json::from_str(r#"{"event":5}"#).unwrap();
    assert!(completion_of(&v).is_none());
}

#[test]
fn decode_completion_takes_members() {
    let r = decode_completion(
        Some("complete".to_string()),
        Some("ok".to_string()),
        Some("fine".to_string()),
        Some(texts(&["x", "y"])),
    )
    .unwrap();
    assert_eq!(r.status, "ok");
    assert_eq!(r.message, "fine");
    assert_eq!(r.outputs, texts(&["x", "y"]));
    assert!(decode_completion(Some("progress".to_string()), None, None, None).is_none());
    assert!(decode_completion(None, Some("ok".to_string()), None, None).is_none());
}

#[test]
fn stderr_text_never_reaches_the_relay_outcome() {
    let (_, _, a) = run(&[r#"{"event":"complete","status":"ok"}"#], Some(0));
    let (_, _, b) = run(&[r#"{"event":"complete","status":"ok"}"#], Some(0));
    assert_eq!(a.ok().unwrap().status, b.ok().unwrap().status);
}

#[test]
fn default_result_is_empty() {
    let r = BackendResult::default();
    assert!(r.status.is_empty());
    assert!(r.message.is_empty());
    assert!(r.outputs.is_empty());
}

#[test]
fn unicode_white_space_is_trimmed() {
    let mut relay = StdoutRelay::new();
    match relay.on_line("\u{3000}oops\u{a0}\r") {
        LineAction::Malformed(t) => assert_eq!(t, "oops"),
        _ => panic!("expected a malformed line"),
    }
    assert!(matches!(relay.on_line("\u{2028}\u{85}"), LineAction::Skip));
}

#[test]
fn forwarded_documents_keep_numbers() {
    let mut relay = StdoutRelay::new();
    match relay.on_line(r#"{"event":"progress","pct":50}"#) {
        LineAction::Forward(v) => assert_eq!(v["pct"], 50),
        _ => panic!("expected a forwarded document"),
    }
}
