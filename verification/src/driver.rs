//! The execution driver's decision logic: collating queued stdin
//! frames, the fixed timeout policy, and what to do after each poll of
//! the child process. The surrounding task performs the waiting and the
//! killing and hands every observation back here as a plain value.

use vstd::prelude::*;
use vstd::string::*;
use crate::exec::{ExecutionOutput, TerminalFeed, TerminalStream, TerminalStreamType};
use crate::lang::{Languages, RuntimeError};
use crate::text::{join_with, lemma_join_push};

verus! {

/// The wall-clock budget of a non-Shell job, in nanoseconds.
pub const STANDARD_TIMEOUT_NANOS: u64 = 5_000_000_000;

/// The text one queued frame contributes to the child's stdin: its pipe
/// text if it is an input frame, nothing otherwise.
pub open spec fn stdin_chunk(f: TerminalStream) -> Seq<char> {
    match f.terminal_type {
        TerminalStreamType::StandardInput => match f.pipe_value {
            Some(v) => v@,
            None => Seq::<char>::empty(),
        },
        _ => Seq::<char>::empty(),
    }
}

/// The stdin text of each queued frame, in queue order.
pub open spec fn stdin_chunks(frames: Seq<TerminalStream>) -> Seq<Seq<char>> {
    frames.map_values(|f: TerminalStream| stdin_chunk(f))
}

fn stdin_chunk_exec(f: &TerminalStream) -> (r: &str)
    ensures
        r@ == stdin_chunk(*f),
{
    proof {
        reveal_strlit("");
        assert(""@ =~= Seq::<char>::empty());
    }
    match f.terminal_type {
        TerminalStreamType::StandardInput => match &f.pipe_value {
            Some(v) => v.as_str(),
            None => "",
        },
        _ => "",
    }
}

/// Joins all queued input frames with newlines into the one block that
/// is written to the child's stdin.
pub fn collate_stdin(feed: &TerminalFeed) -> (r: String)
    ensures
        r@ == join_with(stdin_chunks(feed.std_cin@), '\n'),
{
    let n = feed.std_cin.len();
    if n == 0 {
        let out = String::new();
        return out;
    }
    let mut out = String::from_str(stdin_chunk_exec(&feed.std_cin[0]));
    proof {
        assert(stdin_chunks(feed.std_cin@).take(1) =~= seq![stdin_chunk(feed.std_cin@[0])]);
        assert(out@ =~= join_with(stdin_chunks(feed.std_cin@).take(1), '\n'));
    }
    let mut i: usize = 1;
    while i < n
        invariant
            1 <= i <= n,
            n == feed.std_cin@.len(),
            out@ == join_with(stdin_chunks(feed.std_cin@).take(i as int), '\n'),
        decreases n - i,
    {
        out.append("\n");
        out.append(stdin_chunk_exec(&feed.std_cin[i]));
        proof {
            let chunks = stdin_chunks(feed.std_cin@);
            lemma_join_push(chunks.take(i as int), '\n', chunks[i as int]);
            assert(chunks.take(i as int).push(chunks[i as int]) =~= chunks.take((i + 1) as int));
            reveal_strlit("\n");
            assert("\n"@ =~= seq!['\n']);
            assert(out@ =~= join_with(chunks.take((i + 1) as int), '\n'));
        }
        i = i + 1;
    }
    proof {
        assert(stdin_chunks(feed.std_cin@).take(n as int) =~= stdin_chunks(feed.std_cin@));
    }
    out
}

/// The frame published when writing the collated block to the child's
/// stdin fails: the failure degrades to an error frame on the job's
/// channel rather than aborting the job.
pub fn stdin_failure_frame(error_text: String, nonce: Option<String>) -> (r: TerminalStream)
    ensures
        r.terminal_type is StandardError,
        r.wf(),
        r.nonce == nonce,
        r.pipe_value matches Some(v) && v@ == "roadrunner_error: "@ + error_text@,
{
    let mut text = String::from_str("roadrunner_error: ");
    text.append(error_text.as_str());
    TerminalStream::new(TerminalStreamType::StandardError, text, nonce)
}

/// Whether the timeout path fires: the job has run at least the
/// standard timeout and is not a Shell job. Shell jobs are exempt.
pub open spec fn timeout_exceeded(language: Languages, elapsed_nanos: u64) -> bool {
    elapsed_nanos >= STANDARD_TIMEOUT_NANOS && language != Languages::Shell
}

/// What one poll of the child observed, as plain values.
pub enum PollEvent {
    /// The child exited with this rendered exit status.
    Exited(String),
    /// The child is still running.
    StillRunning,
    /// Waiting on the child failed with this error text.
    WaitFailed(String),
}

/// What the driver does next after one poll.
#[derive(Debug)]
pub enum StepDecision {
    /// Stop the readers and return this result.
    Finish(ExecutionOutput),
    /// Request best-effort termination of the child, then keep polling.
    Kill,
    /// Keep polling.
    Wait,
    /// Stop the readers and fail with this error.
    Fail(RuntimeError),
}

/// Decides the driver's next action from one poll observation: an exit
/// yields the result with the elapsed time as duration; a run past the
/// timeout (non-Shell only) requests termination; a wait failure is
/// captured as an error.
pub fn poll_step(language: Languages, elapsed_nanos: u64, event: PollEvent) -> (r: StepDecision)
    ensures
        r == (match event {
            PollEvent::Exited(status) => StepDecision::Finish(
                ExecutionOutput { exit_status: status, duration_nanos: elapsed_nanos },
            ),
            PollEvent::StillRunning => if timeout_exceeded(language, elapsed_nanos) {
                StepDecision::Kill
            } else {
                StepDecision::Wait
            },
            PollEvent::WaitFailed(m) => StepDecision::Fail(RuntimeError::Capture(m)),
        }),
{
    match event {
        PollEvent::Exited(status) => StepDecision::Finish(
            ExecutionOutput { exit_status: status, duration_nanos: elapsed_nanos },
        ),
        PollEvent::StillRunning => {
            if elapsed_nanos >= STANDARD_TIMEOUT_NANOS && !matches!(language, Languages::Shell) {
                StepDecision::Kill
            } else {
                StepDecision::Wait
            }
        }
        PollEvent::WaitFailed(m) => StepDecision::Fail(RuntimeError::Capture(m)),
    }
}

/// A Shell job is never killed by the timeout path; any job the timeout
/// path kills has already run at least the standard timeout.
pub proof fn lemma_timeout_policy(language: Languages, elapsed_nanos: u64)
    ensures
        language == Languages::Shell ==> !timeout_exceeded(language, elapsed_nanos),
        timeout_exceeded(language, elapsed_nanos) ==> elapsed_nanos >= STANDARD_TIMEOUT_NANOS,
{
}

/// If the timeout path fired while a job ran, the duration the driver
/// later reports — the elapsed time at exit, which is no earlier than
/// the kill — is at least the standard timeout.
pub proof fn lemma_killed_duration(language: Languages, kill_elapsed: u64, exit_elapsed: u64)
    requires
        timeout_exceeded(language, kill_elapsed),
        kill_elapsed <= exit_elapsed,
    ensures
        exit_elapsed >= STANDARD_TIMEOUT_NANOS,
{
}

} // verus!
