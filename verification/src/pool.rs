//! The scheduler's verified half: the relay that forwards each of a
//! job's frames to the client while bucketing it into the transcript,
//! stopping at the end-of-output frame; and the one terminal frame
//! published when the driver finishes. The dispatch loop around these
//! lives with the task runtime.

use vstd::prelude::*;
use crate::exec::{ExecutionOutput, TerminalFeed, TerminalStream, TerminalStreamType};
use crate::json::{error_json_chars, frame_json_chars, frame_to_json};
use crate::lang::RuntimeError;

verus! {

/// The scheduler; its queue lives in the global state.
#[derive(Clone, Copy)]
pub struct Pool {}

impl Pool {
    pub fn new() -> (r: Self) {
        Pool {  }
    }
}

/// Whether a frame is of kind `t`.
pub open spec fn kind_pred(t: TerminalStreamType) -> spec_fn(TerminalStream) -> bool {
    |f: TerminalStream| f.terminal_type == t
}

/// The frames of one kind, in arrival order.
pub open spec fn frames_of_kind(frames: Seq<TerminalStream>, t: TerminalStreamType) -> Seq<
    TerminalStream,
> {
    frames.filter(kind_pred(t))
}

/// How many frames the relay consumes: everything up to and including
/// the first end-of-output frame, or all of them if none arrives.
pub open spec fn relay_stop(frames: Seq<TerminalStream>) -> int
    decreases frames.len(),
{
    if frames.len() == 0 {
        0
    } else if frames[0].terminal_type is EndOfOutput {
        1
    } else {
        1 + relay_stop(frames.drop_first())
    }
}

/// The relay stops one past the first end-of-output frame.
pub proof fn lemma_relay_stop_at_first_end(frames: Seq<TerminalStream>, k: int)
    requires
        0 <= k < frames.len(),
        frames[k].terminal_type is EndOfOutput,
        forall|j: int| 0 <= j < k ==> !((#[trigger] frames[j]).terminal_type is EndOfOutput),
    ensures
        relay_stop(frames) == k + 1,
    decreases k,
{
    if k == 0 {
    } else {
        assert(!(frames[0].terminal_type is EndOfOutput));
        assert forall|j: int| 0 <= j < k - 1 implies !((#[trigger] frames.drop_first()[j]).terminal_type
            is EndOfOutput) by {
            assert(frames.drop_first()[j] == frames[j + 1]);
        }
        lemma_relay_stop_at_first_end(frames.drop_first(), k - 1);
    }
}

/// Without an end-of-output frame the relay consumes everything.
pub proof fn lemma_relay_stop_no_end(frames: Seq<TerminalStream>)
    requires
        forall|j: int| 0 <= j < frames.len() ==> !((#[trigger] frames[j]).terminal_type
            is EndOfOutput),
    ensures
        relay_stop(frames) == frames.len(),
    decreases frames.len(),
{
    if frames.len() == 0 {
    } else {
        assert forall|j: int| 0 <= j < frames.drop_first().len() implies !((#[trigger]
        frames.drop_first()[j]).terminal_type is EndOfOutput) by {
            assert(frames.drop_first()[j] == frames[j + 1]);
        }
        lemma_relay_stop_no_end(frames.drop_first());
    }
}

/// A sequence without frames of kind `t` filters to nothing.
pub proof fn lemma_no_frames_of_kind(frames: Seq<TerminalStream>, t: TerminalStreamType)
    requires
        forall|j: int| 0 <= j < frames.len() ==> (#[trigger] frames[j]).terminal_type != t,
    ensures
        frames_of_kind(frames, t) =~= Seq::<TerminalStream>::empty(),
    decreases frames.len(),
{
    reveal(Seq::filter);
    if frames.len() == 0 {
    } else {
        lemma_no_frames_of_kind(frames.drop_last(), t);
    }
}

/// One relay step: serialize the frame for the client's sink, bucket
/// it into the transcript, and report whether the relay is done.
pub fn relay_frame(feed: &mut TerminalFeed, frame: TerminalStream) -> (r: (String, bool))
    ensures
        r.0@ == frame_json_chars(frame),
        r.1 == (frame.terminal_type is EndOfOutput),
        final(feed).buckets() == old(feed).buckets_after(frame),
{
    let json = frame_to_json(&frame);
    let done = feed.record(frame);
    (json, done)
}

/// The one terminal frame published when the driver finishes: the
/// result on success, the serialized error otherwise.
pub fn terminal_frame(result: Result<ExecutionOutput, RuntimeError>, nonce: Option<String>) -> (r:
    TerminalStream)
    ensures
        r.terminal_type is EndOfOutput,
        r.wf(),
        r.nonce == nonce,
        match result {
            Ok(o) => r.value == Some(o),
            Err(e) => r.value is None && r.pipe_value is Some && r.pipe_value->0@
                == error_json_chars(e),
        },
{
    match result {
        Ok(o) => TerminalStream::new_output(TerminalStreamType::EndOfOutput, o, nonce),
        Err(e) => TerminalStream::new(TerminalStreamType::EndOfOutput, e.to_string(), nonce),
    }
}

/// Replays a whole stream of frames through the relay: frames are
/// bucketed in arrival order until the first end-of-output frame, and
/// everything after it is ignored.
pub fn run_relay(frames: &Vec<TerminalStream>) -> (r: (TerminalFeed, usize))
    ensures
        r.1 == relay_stop(frames@),
        r.0.std_cout@ == frames_of_kind(
            frames@.take(relay_stop(frames@)),
            TerminalStreamType::StandardOutput,
        ),
        r.0.std_cin@ == frames_of_kind(
            frames@.take(relay_stop(frames@)),
            TerminalStreamType::StandardInput,
        ),
        r.0.std_err@ == frames_of_kind(
            frames@.take(relay_stop(frames@)),
            TerminalStreamType::StandardError,
        ),
        r.0.output@ == frames_of_kind(
            frames@.take(relay_stop(frames@)),
            TerminalStreamType::EndOfOutput,
        ),
{
    let n = frames.len();
    let mut feed = TerminalFeed::empty();
    let mut i: usize = 0;
    let mut saw_end = false;
    proof {
        reveal(Seq::filter);
        assert(frames@.take(0) =~= Seq::<TerminalStream>::empty());
    }
    while i < n && !saw_end
        invariant
            i <= n,
            n == frames@.len(),
            saw_end ==> i >= 1 && frames@[i - 1].terminal_type is EndOfOutput,
            forall|j: int|
                0 <= j < (if saw_end {
                    i - 1
                } else {
                    i as int
                }) ==> !((#[trigger] frames@[j]).terminal_type is EndOfOutput),
            feed.std_cout@ == frames_of_kind(
                frames@.take(i as int),
                TerminalStreamType::StandardOutput,
            ),
            feed.std_cin@ == frames_of_kind(
                frames@.take(i as int),
                TerminalStreamType::StandardInput,
            ),
            feed.std_err@ == frames_of_kind(
                frames@.take(i as int),
                TerminalStreamType::StandardError,
            ),
            feed.output@ == frames_of_kind(
                frames@.take(i as int),
                TerminalStreamType::EndOfOutput,
            ),
        decreases n - i,
    {
        let frame = frames[i].duplicate();
        let done = feed.record(frame);
        saw_end = done;
        proof {
            let processed = frames@.take(i as int);
            let f = frames@[i as int];
            assert(frames@.take((i + 1) as int) =~= processed.push(f));
            processed.lemma_filter_push(f, kind_pred(TerminalStreamType::StandardOutput));
            processed.lemma_filter_push(f, kind_pred(TerminalStreamType::StandardInput));
            processed.lemma_filter_push(f, kind_pred(TerminalStreamType::StandardError));
            processed.lemma_filter_push(f, kind_pred(TerminalStreamType::EndOfOutput));
        }
        i = i + 1;
    }
    proof {
        if saw_end {
            lemma_relay_stop_at_first_end(frames@, i - 1);
        } else {
            lemma_relay_stop_no_end(frames@);
            assert(frames@.take(i as int) =~= frames@);
        }
    }
    (feed, i)
}

/// Exactly one end-of-output frame enters the transcript, and it is
/// the last frame the relay processes: everything after the first
/// end-of-output frame is ignored.
pub proof fn lemma_end_of_output_terminal(frames: Seq<TerminalStream>, k: int)
    requires
        0 <= k < frames.len(),
        frames[k].terminal_type is EndOfOutput,
        forall|j: int| 0 <= j < k ==> !((#[trigger] frames[j]).terminal_type is EndOfOutput),
    ensures
        relay_stop(frames) == k + 1,
        frames_of_kind(frames.take(relay_stop(frames)), TerminalStreamType::EndOfOutput)
            =~= seq![frames[k]],
        frames.take(relay_stop(frames)).last() == frames[k],
{
    lemma_relay_stop_at_first_end(frames, k);
    let processed = frames.take(k + 1);
    let before = frames.take(k);
    assert(processed =~= before.push(frames[k]));
    assert forall|j: int| 0 <= j < before.len() implies (#[trigger] before[j]).terminal_type
        != TerminalStreamType::EndOfOutput by {
        assert(before[j] == frames[j]);
    }
    lemma_no_frames_of_kind(before, TerminalStreamType::EndOfOutput);
    before.lemma_filter_push(frames[k], kind_pred(TerminalStreamType::EndOfOutput));
    assert(frames_of_kind(processed, TerminalStreamType::EndOfOutput) =~= seq![frames[k]]);
}

} // verus!
