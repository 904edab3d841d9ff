use roadrunner::exec::{ExecutionOutput, TerminalStream, TerminalStreamType};
use roadrunner::lang::RuntimeError;
use roadrunner::pool::{relay_frame, run_relay, terminal_frame, Pool};

fn output_frame(text: &str) -> TerminalStream {
    TerminalStream::new(TerminalStreamType::StandardOutput, String::from(text), None)
}

fn end_frame() -> TerminalStream {
    TerminalStream::new_output(
        TerminalStreamType::EndOfOutput,
        ExecutionOutput { exit_status: String::from("exit status: 0"), duration_nanos: 9 },
        None,
    )
}

#[test]
fn pool_constructs() {
    let _ = Pool::new();
}

#[test]
fn relay_stops_at_end_of_output() {
    let frames = vec![
        output_frame("one"),
        output_frame("two"),
        end_frame(),
        output_frame("ignored"),
    ];
    let (feed, processed) = run_relay(&frames);
    assert_eq!(processed, 3);
    assert_eq!(feed.std_cout.len(), 2);
    assert_eq!(feed.output.len(), 1);
    assert_eq!(feed.std_cout[0].pipe_value.as_deref(), Some("one"));
    assert_eq!(feed.std_cout[1].pipe_value.as_deref(), Some("two"));
}

#[test]
fn relay_without_end_consumes_everything() {
    let frames = vec![output_frame("a"), output_frame("b")];
    let (feed, processed) = run_relay(&frames);
    assert_eq!(processed, 2);
    assert_eq!(feed.std_cout.len(), 2);
    assert!(feed.output.is_empty());
}

#[test]
fn exactly_one_end_frame_enters_transcript() {
    let frames = vec![end_frame(), end_frame(), end_frame()];
    let (feed, processed) = run_relay(&frames);
    assert_eq!(processed, 1);
    assert_eq!(feed.output.len(), 1);
    assert!(feed.std_cout.is_empty());
}

#[test]
fn relay_frame_serializes_and_buckets() {
    let mut feed = roadrunner::exec::TerminalFeed::empty();
    let (json, done) = relay_frame(&mut feed, output_frame("hi"));
    assert!(!done);
    assert!(json.contains("\"type\":\"StandardOutput\""));
    assert!(json.contains("\"pipe_value\":\"hi\""));
    assert_eq!(feed.std_cout.len(), 1);
    let (json_end, done_end) = relay_frame(&mut feed, end_frame());
    assert!(done_end);
    assert!(json_end.contains("\"type\":\"EndOfOutput\""));
    assert_eq!(feed.output.len(), 1);
}

#[test]
fn successful_run_ends_with_status_frame() {
    let frame = terminal_frame(
        Ok(ExecutionOutput { exit_status: String::from("exit status: 0"), duration_nanos: 17 }),
        Some(String::from("n3")),
    );
    assert!(matches!(frame.terminal_type, TerminalStreamType::EndOfOutput));
    let output = frame.value.expect("success carries the result");
    assert_eq!(output.exit_status, "exit status: 0");
    assert_eq!(output.duration_nanos, 17);
    assert_eq!(frame.nonce.as_deref(), Some("n3"));
}

#[test]
fn failed_run_ends_with_serialized_error() {
    let frame = terminal_frame(
        Err(RuntimeError::InitializationFailure(String::from("gcc missing"))),
        None,
    );
    assert!(matches!(frame.terminal_type, TerminalStreamType::EndOfOutput));
    assert!(frame.value.is_none());
    assert_eq!(
        frame.pipe_value.as_deref(),
        Some("{\"type\":\"InitializationFailure\",\"value\":\"gcc missing\"}")
    );
}

#[test]
fn scenario_python_hello_world() {
    // submit {source:"print('hi')", language:"python", nonce:"n1"}
    let mut state = roadrunner::runner::GlobalState::initialize();
    let packet = roadrunner::runner::ExecutePacket {
        source: String::from("print('hi')"),
        language: String::from("python"),
        nonce: String::from("n1"),
        commandline_arguments: None,
        standard_input: None,
    };
    let reply = roadrunner::runner::handle_request(&mut state, 11, Ok(packet));
    assert!(reply.is_none());
    let job = state.dequeue_job().expect("job was enqueued");
    assert_eq!(job.language, roadrunner::lang::Languages::Python);
    assert_eq!(job.nonce.as_deref(), Some("n1"));

    // the run produces one output line, then the end-of-output frame
    let hello = TerminalStream::new(
        TerminalStreamType::StandardOutput,
        String::from("hi"),
        job.nonce.clone(),
    );
    let end = terminal_frame(
        Ok(ExecutionOutput { exit_status: String::from("exit status: 0"), duration_nanos: 1000 }),
        job.nonce.clone(),
    );
    let (feed, processed) = run_relay(&vec![hello, end]);
    assert_eq!(processed, 2);
    assert_eq!(feed.std_cout.len(), 1);
    assert_eq!(feed.std_cout[0].pipe_value.as_deref(), Some("hi"));
    assert_eq!(feed.std_cout[0].nonce.as_deref(), Some("n1"));
    assert_eq!(feed.output.len(), 1);
    let status = feed.output[0].value.as_ref().expect("end frame carries the result");
    assert_eq!(status.exit_status, "exit status: 0");
}

#[test]
fn scenario_c_compile_error() {
    // a C job whose build fails produces no StandardOutput frame, and
    // the end-of-output frame reflects the failure
    let job = roadrunner::exec::ExecutorBuilder::new()
        .language(roadrunner::lang::Languages::C)
        .src_file(String::from("int main( { broken"))
        .build(5);
    let plan = roadrunner::adapter::plan_for(&job);
    assert!(plan.build.is_some());
    let end = terminal_frame(
        Err(RuntimeError::InitializationFailure(String::from("main.c: syntax error"))),
        job.nonce.clone(),
    );
    let (feed, _) = run_relay(&vec![end]);
    assert!(feed.std_cout.is_empty());
    assert_eq!(feed.output.len(), 1);
    assert!(feed.output[0].value.is_none());
    let text = feed.output[0].pipe_value.as_deref().unwrap();
    assert!(text.contains("InitializationFailure"));
}
