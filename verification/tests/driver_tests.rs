use roadrunner::driver::{
    collate_stdin, poll_step, stdin_failure_frame, PollEvent, StepDecision,
    STANDARD_TIMEOUT_NANOS,
};
use roadrunner::exec::{TerminalFeed, TerminalStream, TerminalStreamType};
use roadrunner::lang::{Languages, RuntimeError};

fn input_frame(text: &str) -> TerminalStream {
    TerminalStream::new(TerminalStreamType::StandardInput, String::from(text), None)
}

#[test]
fn collate_joins_inputs_with_newlines() {
    let mut feed = TerminalFeed::empty();
    feed.record(input_frame("first"));
    feed.record(input_frame("second"));
    feed.record(input_frame("third"));
    assert_eq!(collate_stdin(&feed), "first\nsecond\nthird");
}

#[test]
fn collate_of_empty_feed_is_empty() {
    let feed = TerminalFeed::empty();
    assert_eq!(collate_stdin(&feed), "");
}

#[test]
fn collate_single_input() {
    let mut feed = TerminalFeed::empty();
    feed.record(input_frame("only"));
    assert_eq!(collate_stdin(&feed), "only");
}

#[test]
fn exit_reports_elapsed_as_duration() {
    let decision = poll_step(
        Languages::Python,
        42,
        PollEvent::Exited(String::from("exit status: 0")),
    );
    match decision {
        StepDecision::Finish(output) => {
            assert_eq!(output.exit_status, "exit status: 0");
            assert_eq!(output.duration_nanos, 42);
        }
        other => panic!("expected Finish, got {:?}", other),
    }
}

#[test]
fn non_shell_job_past_timeout_is_killed() {
    let decision = poll_step(
        Languages::C,
        STANDARD_TIMEOUT_NANOS + 1,
        PollEvent::StillRunning,
    );
    assert!(matches!(decision, StepDecision::Kill));
    let at_limit = poll_step(Languages::Rust, STANDARD_TIMEOUT_NANOS, PollEvent::StillRunning);
    assert!(matches!(at_limit, StepDecision::Kill));
}

#[test]
fn job_under_timeout_keeps_waiting() {
    let decision = poll_step(Languages::C, STANDARD_TIMEOUT_NANOS - 1, PollEvent::StillRunning);
    assert!(matches!(decision, StepDecision::Wait));
}

#[test]
fn shell_job_is_never_killed_by_timeout() {
    let decision = poll_step(
        Languages::Shell,
        10 * STANDARD_TIMEOUT_NANOS,
        PollEvent::StillRunning,
    );
    assert!(matches!(decision, StepDecision::Wait));
}

#[test]
fn wait_failure_is_captured() {
    let decision = poll_step(
        Languages::Go,
        5,
        PollEvent::WaitFailed(String::from("no child")),
    );
    match decision {
        StepDecision::Fail(RuntimeError::Capture(m)) => assert_eq!(m, "no child"),
        other => panic!("expected Capture, got {:?}", other),
    }
}

#[test]
fn standard_timeout_is_five_seconds() {
    assert_eq!(STANDARD_TIMEOUT_NANOS, 5_000_000_000);
}

#[test]
fn stdin_write_failure_degrades_to_error_frame() {
    let frame = stdin_failure_frame(String::from("broken pipe"), Some(String::from("n4")));
    assert!(matches!(frame.terminal_type, TerminalStreamType::StandardError));
    assert_eq!(frame.pipe_value.as_deref(), Some("roadrunner_error: broken pipe"));
    assert_eq!(frame.nonce.as_deref(), Some("n4"));
    assert!(frame.value.is_none());
}

#[test]
fn collate_maps_foreign_frames_in_input_bucket_to_empty() {
    // a frame of another kind placed in the input bucket contributes
    // nothing but its separator
    let stray = TerminalStream::new(
        TerminalStreamType::StandardOutput,
        String::from("not input"),
        None,
    );
    let feed = TerminalFeed {
        std_cout: vec![],
        std_cin: vec![input_frame("a"), stray, input_frame("b")],
        std_err: vec![],
        output: vec![],
    };
    assert_eq!(collate_stdin(&feed), "a\n\nb");
}
