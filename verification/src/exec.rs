//! The job data model: parsed command-line arguments, terminal frames,
//! the transcript feed, timings, and the job builder.

use vstd::prelude::*;
use vstd::string::*;
use crate::clock;
use crate::ids;
use crate::ids::uuid_text_of;
use crate::lang::Languages;
use crate::text::{join_with, lemma_join_extend_last, lemma_join_push};
use crate::Nanos;

verus! {

/// The views of a sequence of strings.
pub open spec fn views_of(ss: Seq<String>) -> Seq<Seq<char>> {
    ss.map_values(|s: String| s@)
}

/// `pieces` is what splitting `input` on single spaces yields: at least
/// one piece, none containing a space, and joining them with spaces
/// restores the input. These conditions determine `pieces` uniquely
/// (`crate::text::lemma_join_unique`).
pub open spec fn split_ok(input: Seq<char>, pieces: Seq<Seq<char>>) -> bool {
    &&& pieces.len() >= 1
    &&& join_with(pieces, ' ') == input
    &&& forall|k: int| 0 <= k < pieces.len() ==> !(#[trigger] pieces[k]).contains(' ')
}

/// A job's command-line arguments, as handed to the run command.
#[derive(Clone, Debug)]
pub struct Arguments {
    pub argument_count: i32,
    pub arguments: Vec<String>,
}

impl Arguments {
    /// Splits the argument string on single spaces; adjacent spaces
    /// yield empty arguments, and the empty string yields one empty
    /// argument.
    pub fn parse(argument_string: String) -> (r: Arguments)
        requires
            argument_string@.len() + 1 < i32::MAX,
        ensures
            split_ok(argument_string@, views_of(r.arguments@)),
            r.argument_count == views_of(r.arguments@).len(),
    {
        let s: &str = argument_string.as_str();
        let n: usize = s.unicode_len();
        let mut pieces: Vec<String> = Vec::new();
        let mut start: usize = 0;
        let mut i: usize = 0;
        while i < n
            invariant
                s@ == argument_string@,
                n == s@.len(),
                n + 1 < i32::MAX,
                start <= i && i <= n,
                views_of(pieces@).len() <= start,
                join_with(views_of(pieces@).push(s@.subrange(start as int, i as int)), ' ')
                    == s@.take(i as int),
                forall|k: int|
                    0 <= k < views_of(pieces@).len() ==> !(#[trigger] views_of(pieces@)[k]).contains(
                        ' ',
                    ),
                forall|j: int| start <= j < i ==> s@[j] != ' ',
            decreases n - i,
        {
            let c = s.get_char(i);
            if c == ' ' {
                let piece_str = s.substring_char(start, i);
                let ghost old_views = views_of(pieces@);
                let ghost cur = s@.subrange(start as int, i as int);
                pieces.push(String::from_str(piece_str));
                proof {
                    assert(views_of(pieces@) =~= old_views.push(cur));
                    assert(!cur.contains(' ')) by {
                        assert forall|k: int| 0 <= k < cur.len() implies cur[k] != ' ' by {
                            assert(cur[k] == s@[start + k]);
                        }
                    }
                    lemma_join_push(old_views.push(cur), ' ', Seq::empty());
                    assert(s@.subrange((i + 1) as int, (i + 1) as int) =~= Seq::<char>::empty());
                    assert(join_with(views_of(pieces@).push(Seq::<char>::empty()), ' ')
                        =~= s@.take(i as int) + seq![' ']);
                    assert(s@.take(i as int) + seq![' '] =~= s@.take((i + 1) as int));
                }
                start = i + 1;
            } else {
                proof {
                    lemma_join_extend_last(
                        views_of(pieces@),
                        ' ',
                        s@.subrange(start as int, i as int),
                        s@[i as int],
                    );
                    assert(s@.subrange(start as int, (i + 1) as int) =~= s@.subrange(
                        start as int,
                        i as int,
                    ).push(s@[i as int]));
                    assert(s@.take((i + 1) as int) =~= s@.take(i as int).push(s@[i as int]));
                }
            }
            i = i + 1;
        }
        let piece_str = s.substring_char(start, n);
        let ghost old_views = views_of(pieces@);
        let ghost cur = s@.subrange(start as int, n as int);
        pieces.push(String::from_str(piece_str));
        proof {
            assert(views_of(pieces@) =~= old_views.push(cur));
            assert(!cur.contains(' ')) by {
                assert forall|k: int| 0 <= k < cur.len() implies cur[k] != ' ' by {
                    assert(cur[k] == s@[start + k]);
                }
            }
            assert(s@.take(n as int) =~= s@);
        }
        let count = pieces.len();
        proof {
            assert(views_of(pieces@).len() < i32::MAX);
        }
        Arguments { argument_count: count as i32, arguments: pieces }
    }
}

/// The kind of one terminal frame.
#[derive(Clone, Copy, Debug, PartialEq, Eq, Structural)]
pub enum TerminalStreamType {
    StandardInput,
    StandardOutput,
    StandardError,
    EndOfOutput,
}

/// A finished run's result: the rendered exit status and how long the
/// run took.
#[derive(Clone, Debug)]
pub struct ExecutionOutput {
    pub exit_status: String,
    pub duration_nanos: u64,
}

/// One timestamped frame of a job's stream: a line of input, output or
/// error text, or the terminal end-of-output frame carrying the result.
#[derive(Clone, Debug)]
pub struct TerminalStream {
    pub terminal_type: TerminalStreamType,
    pub value: Option<ExecutionOutput>,
    pub pipe_value: Option<String>,
    pub nonce: Option<String>,
    pub timestamp: Nanos,
}

impl TerminalStream {
    /// Exactly one payload is populated, and a status payload appears
    /// only on an end-of-output frame.
    pub open spec fn wf(self) -> bool {
        &&& self.value is Some <==> self.pipe_value is None
        &&& self.value is Some ==> self.terminal_type is EndOfOutput
    }

    /// A frame carrying one piece of pipe text.
    pub fn new(terminal_type: TerminalStreamType, value: String, nonce: Option<String>) -> (r:
        Self)
        ensures
            r.terminal_type == terminal_type,
            r.pipe_value == Some(value),
            r.value is None,
            r.nonce == nonce,
            r.wf(),
    {
        TerminalStream {
            terminal_type,
            value: None,
            pipe_value: Some(value),
            nonce,
            timestamp: clock::now_nanos(),
        }
    }

    /// A field-for-field copy of the frame.
    pub fn duplicate(&self) -> (r: Self)
        ensures
            r == *self,
    {
        TerminalStream {
            terminal_type: self.terminal_type,
            value: match &self.value {
                Some(o) => Some(
                    ExecutionOutput {
                        exit_status: o.exit_status.clone(),
                        duration_nanos: o.duration_nanos,
                    },
                ),
                None => None,
            },
            pipe_value: match &self.pipe_value {
                Some(s) => Some(s.clone()),
                None => None,
            },
            nonce: match &self.nonce {
                Some(s) => Some(s.clone()),
                None => None,
            },
            timestamp: self.timestamp,
        }
    }

    /// The terminal frame carrying the exit status and duration.
    pub fn new_output(
        terminal_type: TerminalStreamType,
        value: ExecutionOutput,
        nonce: Option<String>,
    ) -> (r: Self)
        requires
            terminal_type is EndOfOutput,
        ensures
            r.terminal_type == terminal_type,
            r.value == Some(value),
            r.pipe_value is None,
            r.nonce == nonce,
            r.wf(),
    {
        TerminalStream {
            terminal_type,
            value: Some(value),
            pipe_value: None,
            nonce,
            timestamp: clock::now_nanos(),
        }
    }
}

/// A job's transcript: its frames bucketed by kind.
#[derive(Clone, Debug)]
pub struct TerminalFeed {
    pub std_cout: Vec<TerminalStream>,
    pub std_cin: Vec<TerminalStream>,
    pub std_err: Vec<TerminalStream>,
    pub output: Vec<TerminalStream>,
}

impl TerminalFeed {
    /// The transcript with no frames yet.
    pub fn empty() -> (r: TerminalFeed)
        ensures
            r.std_cout@ =~= Seq::<TerminalStream>::empty(),
            r.std_cin@ =~= Seq::<TerminalStream>::empty(),
            r.std_err@ =~= Seq::<TerminalStream>::empty(),
            r.output@ =~= Seq::<TerminalStream>::empty(),
    {
        TerminalFeed { std_cout: Vec::new(), std_cin: Vec::new(), std_err: Vec::new(), output: Vec::new() }
    }

    /// The four bucket views of the transcript.
    pub open spec fn buckets(self) -> (Seq<TerminalStream>, Seq<TerminalStream>, Seq<
        TerminalStream,
    >, Seq<TerminalStream>) {
        (self.std_cout@, self.std_cin@, self.std_err@, self.output@)
    }

    /// The buckets after one frame is recorded: the frame goes to the
    /// bucket of its kind, the others are untouched.
    pub open spec fn buckets_after(self, frame: TerminalStream) -> (Seq<TerminalStream>, Seq<
        TerminalStream,
    >, Seq<TerminalStream>, Seq<TerminalStream>) {
        match frame.terminal_type {
            TerminalStreamType::StandardOutput => (
                self.std_cout@.push(frame),
                self.std_cin@,
                self.std_err@,
                self.output@,
            ),
            TerminalStreamType::StandardInput => (
                self.std_cout@,
                self.std_cin@.push(frame),
                self.std_err@,
                self.output@,
            ),
            TerminalStreamType::StandardError => (
                self.std_cout@,
                self.std_cin@,
                self.std_err@.push(frame),
                self.output@,
            ),
            TerminalStreamType::EndOfOutput => (
                self.std_cout@,
                self.std_cin@,
                self.std_err@,
                self.output@.push(frame),
            ),
        }
    }

    /// Appends a frame to the bucket of its kind; the relay stops once
    /// this reports that the end-of-output frame arrived.
    pub fn record(&mut self, frame: TerminalStream) -> (done: bool)
        ensures
            done == (frame.terminal_type is EndOfOutput),
            final(self).buckets() == old(self).buckets_after(frame),
    {
        match frame.terminal_type {
            TerminalStreamType::StandardOutput => {
                self.std_cout.push(frame);
                false
            }
            TerminalStreamType::StandardInput => {
                self.std_cin.push(frame);
                false
            }
            TerminalStreamType::StandardError => {
                self.std_err.push(frame);
                false
            }
            TerminalStreamType::EndOfOutput => {
                self.output.push(frame);
                true
            }
        }
    }
}

/// When a job was received, started and finished, in nanoseconds since
/// the Unix epoch.
#[derive(Clone, Copy, Debug)]
pub struct Timing {
    pub time_received: Option<Nanos>,
    pub time_executed: Option<Nanos>,
    pub time_completed: Option<Nanos>,
}

/// The sandbox directory allotted to one (submitter, job) pair.
pub open spec fn sandbox_dir_chars(sender: u128, id: u128) -> Seq<char> {
    "jobs/"@ + uuid_text_of(sender) + "/"@ + uuid_text_of(id)
}

/// Collects a job's fields before construction; `build` validates them
/// once, so no partially built job exists afterwards.
pub struct ExecutorBuilder {
    pub language: Option<Languages>,
    pub standard_input: Option<String>,
    pub arguments: Option<String>,
    pub src_file: Option<String>,
    pub nonce: Option<String>,
}

/// One code-execution request's full lifecycle state.
pub struct Executor {
    pub id: u128,
    pub nonce: Option<String>,
    pub language: Languages,
    pub src_file: String,
    pub allocated_dir: String,
    pub terminal_feed: TerminalFeed,
    pub commandline_arguments: Arguments,
    pub timings: Timing,
    pub sender_id: u128,
}

impl ExecutorBuilder {
    pub fn new() -> (r: Self)
        ensures
            r.language is None,
            r.standard_input is None,
            r.arguments is None,
            r.src_file is None,
            r.nonce is None,
    {
        ExecutorBuilder {
            language: None,
            standard_input: None,
            arguments: None,
            src_file: None,
            nonce: None,
        }
    }

    pub fn language(self, language: Languages) -> (r: Self)
        ensures
            r == (ExecutorBuilder { language: Some(language), ..self }),
    {
        ExecutorBuilder { language: Some(language), ..self }
    }

    pub fn src_file(self, input: String) -> (r: Self)
        ensures
            r == (ExecutorBuilder { src_file: Some(input), ..self }),
    {
        ExecutorBuilder { src_file: Some(input), ..self }
    }

    pub fn arguments(self, arguments: String) -> (r: Self)
        ensures
            r == (ExecutorBuilder { arguments: Some(arguments), ..self }),
    {
        ExecutorBuilder { arguments: Some(arguments), ..self }
    }

    pub fn input(self, standard_input: String) -> (r: Self)
        ensures
            r == (ExecutorBuilder { standard_input: Some(standard_input), ..self }),
    {
        ExecutorBuilder { standard_input: Some(standard_input), ..self }
    }

    pub fn nonce(self, nonce: String) -> (r: Self)
        ensures
            r == (ExecutorBuilder { nonce: Some(nonce), ..self }),
    {
        ExecutorBuilder { nonce: Some(nonce), ..self }
    }

    /// Builds the job: a fresh id, the sandbox directory derived from
    /// the submitter and the id, the stdin payload queued as the first
    /// input frame, and the argument string parsed.
    pub fn build(self, sender_id: u128) -> (r: Executor)
        requires
            self.language is Some,
            self.src_file is Some,
            self.arguments is Some ==> self.arguments->0@.len() + 1 < i32::MAX,
        ensures
            r.language == self.language->0,
            r.src_file == self.src_file->0,
            r.nonce == self.nonce,
            r.sender_id == sender_id,
            r.allocated_dir@ == sandbox_dir_chars(sender_id, r.id),
            r.terminal_feed.std_cout@.len() == 0,
            r.terminal_feed.std_err@.len() == 0,
            r.terminal_feed.output@.len() == 0,
            r.terminal_feed.std_cin@.len() == 1,
            r.terminal_feed.std_cin@[0].wf(),
            r.terminal_feed.std_cin@[0].terminal_type is StandardInput,
            r.terminal_feed.std_cin@[0].nonce == self.nonce,
            r.terminal_feed.std_cin@[0].pipe_value is Some,
            r.terminal_feed.std_cin@[0].pipe_value->0@ == (if self.standard_input is Some {
                self.standard_input->0@
            } else {
                Seq::<char>::empty()
            }),
            split_ok(
                if self.arguments is Some {
                    self.arguments->0@
                } else {
                    Seq::<char>::empty()
                },
                views_of(r.commandline_arguments.arguments@),
            ),
            r.commandline_arguments.argument_count == views_of(
                r.commandline_arguments.arguments@,
            ).len(),
            r.timings.time_received is None,
            r.timings.time_executed is None,
            r.timings.time_completed is None,
    {
        let id = ids::fresh_id();
        let mut dir = String::from_str("jobs/");
        dir.append(ids::format_uuid(sender_id).as_str());
        dir.append("/");
        dir.append(ids::format_uuid(id).as_str());
        proof {
            assert(dir@ =~= sandbox_dir_chars(sender_id, id));
        }
        let standard_input = self.standard_input.unwrap_or(String::new());
        let argument_string = self.arguments.unwrap_or(String::new());
        let first_input = TerminalStream::new(
            TerminalStreamType::StandardInput,
            standard_input,
            self.nonce.clone(),
        );
        let mut std_cin: Vec<TerminalStream> = Vec::new();
        std_cin.push(first_input);
        Executor {
            id,
            nonce: self.nonce,
            language: self.language.expect(
                "[BUILDER]: Could not retrieve language, value not set.",
            ),
            src_file: self.src_file.expect(
                "[BUILDER]: Could not retrieve source file, value not set.",
            ),
            allocated_dir: dir,
            terminal_feed: TerminalFeed {
                std_cout: Vec::new(),
                std_cin,
                std_err: Vec::new(),
                output: Vec::new(),
            },
            timings: Timing { time_received: None, time_executed: None, time_completed: None },
            sender_id,
            commandline_arguments: Arguments::parse(argument_string),
        }
    }
}

} // verus!
