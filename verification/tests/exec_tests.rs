use roadrunner::exec::{
    Arguments, ExecutionOutput, ExecutorBuilder, TerminalFeed, TerminalStream, TerminalStreamType,
};
use roadrunner::lang::Languages;

#[test]
fn parse_splits_on_single_spaces() {
    let args = Arguments::parse(String::from("a b c"));
    assert_eq!(args.argument_count, 3);
    assert_eq!(args.arguments, vec!["a", "b", "c"]);
}

#[test]
fn parse_empty_string_yields_one_empty_argument() {
    let args = Arguments::parse(String::new());
    assert_eq!(args.argument_count, 1);
    assert_eq!(args.arguments, vec![""]);
}

#[test]
fn parse_adjacent_spaces_yield_empty_arguments() {
    let args = Arguments::parse(String::from("a  b"));
    assert_eq!(args.argument_count, 3);
    assert_eq!(args.arguments, vec!["a", "", "b"]);
}

#[test]
fn parse_trailing_space_yields_trailing_empty_argument() {
    let args = Arguments::parse(String::from("x "));
    assert_eq!(args.argument_count, 2);
    assert_eq!(args.arguments, vec!["x", ""]);
}

#[test]
fn builder_fills_job_fields() {
    let job = ExecutorBuilder::new()
        .language(Languages::Python)
        .src_file(String::from("print('hi')"))
        .arguments(String::from("x y"))
        .input(String::from("stdin text"))
        .nonce(String::from("n1"))
        .build(7);
    assert_eq!(job.language, Languages::Python);
    assert_eq!(job.src_file, "print('hi')");
    assert_eq!(job.nonce.as_deref(), Some("n1"));
    assert_eq!(job.sender_id, 7);
    assert_eq!(job.commandline_arguments.argument_count, 2);
    assert_eq!(job.commandline_arguments.arguments, vec!["x", "y"]);
    assert_eq!(job.terminal_feed.std_cin.len(), 1);
    let first = &job.terminal_feed.std_cin[0];
    assert!(matches!(first.terminal_type, TerminalStreamType::StandardInput));
    assert_eq!(first.pipe_value.as_deref(), Some("stdin text"));
    assert_eq!(first.nonce.as_deref(), Some("n1"));
    assert!(job.terminal_feed.std_cout.is_empty());
    assert!(job.terminal_feed.std_err.is_empty());
    assert!(job.terminal_feed.output.is_empty());
    assert!(job.timings.time_received.is_none());
    assert!(job.timings.time_executed.is_none());
    assert!(job.timings.time_completed.is_none());
}

#[test]
fn builder_allocates_directory_under_sender_and_job_id() {
    let sender: u128 = 0x1234_5678_9abc_def0_1234_5678_9abc_def0;
    let job = ExecutorBuilder::new()
        .language(Languages::Shell)
        .src_file(String::from("echo hi"))
        .build(sender);
    let expected = format!(
        "jobs/{}/{}",
        uuid::Uuid::from_u128(sender),
        uuid::Uuid::from_u128(job.id)
    );
    assert_eq!(job.allocated_dir, expected);
    // the hyphenated form is always 36 characters
    assert_eq!(job.allocated_dir.len(), "jobs/".len() + 36 + 1 + 36);
}

#[test]
fn record_buckets_frames_by_kind() {
    let mut feed = TerminalFeed::empty();
    let out = TerminalStream::new(
        TerminalStreamType::StandardOutput,
        String::from("line"),
        None,
    );
    let err = TerminalStream::new(
        TerminalStreamType::StandardError,
        String::from("oops"),
        None,
    );
    let end = TerminalStream::new_output(
        TerminalStreamType::EndOfOutput,
        ExecutionOutput { exit_status: String::from("exit status: 0"), duration_nanos: 5 },
        None,
    );
    assert!(!feed.record(out));
    assert!(!feed.record(err));
    assert!(feed.record(end));
    assert_eq!(feed.std_cout.len(), 1);
    assert_eq!(feed.std_err.len(), 1);
    assert_eq!(feed.output.len(), 1);
    assert_eq!(feed.std_cin.len(), 0);
    assert_eq!(feed.std_cout[0].pipe_value.as_deref(), Some("line"));
}
