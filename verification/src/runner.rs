//! The client registry, the process-wide state, and the translation
//! from inbound requests to queued jobs.

use vstd::prelude::*;
use vstd::string::*;
use std::collections::VecDeque;
use crate::exec::{Executor, ExecutorBuilder};
use crate::ids;
use crate::ids::uuid_text_of;
use crate::json::error_json_chars;
use crate::lang::{language_of_name, Languages, RuntimeError};

verus! {

/// One live connection's record; its outbound sink lives with the
/// connection layer, keyed by the same identity.
pub struct Client {
    pub id: u128,
    pub job_history: Vec<Runner>,
}

impl Client {
    /// A freshly connected client under a new random identity.
    pub fn new() -> (r: Client)
        ensures
            r.job_history@.len() == 0,
    {
        Client { id: ids::fresh_id(), job_history: Vec::new() }
    }
}

/// The root directory holding all of one submitter's sandboxes; it is
/// deleted recursively when the client disconnects.
pub open spec fn client_root_chars(id: u128) -> Seq<char> {
    "jobs/"@ + uuid_text_of(id)
}

/// The root directory holding all of one submitter's sandboxes.
pub fn client_root(id: u128) -> (r: String)
    ensures
        r@ == client_root_chars(id),
{
    let mut dir = String::from_str("jobs/");
    dir.append(ids::format_uuid(id).as_str());
    proof {
        assert(dir@ =~= client_root_chars(id));
    }
    dir
}

/// The process-wide state: the FIFO job queue and the client map,
/// constructed once and passed by reference — never global.
pub struct GlobalState {
    pub task_queue: VecDeque<Executor>,
    pub clients: Vec<Client>,
}

impl GlobalState {
    /// Client identities are unique.
    pub open spec fn wf(self) -> bool {
        forall|i: int, j: int|
            0 <= i < j < self.clients@.len() ==> (#[trigger] self.clients@[i]).id != (
            #[trigger] self.clients@[j]).id
    }

    /// Whether a client with this identity is registered.
    pub open spec fn has_client(self, id: u128) -> bool {
        exists|i: int| 0 <= i < self.clients@.len() && (#[trigger] self.clients@[i]).id == id
    }

    /// The empty state: no queued jobs, no clients.
    pub fn initialize() -> (r: GlobalState)
        ensures
            r.task_queue@.len() == 0,
            r.clients@.len() == 0,
            r.wf(),
    {
        GlobalState { task_queue: VecDeque::new(), clients: Vec::new() }
    }

    /// Registers a newly connected client.
    pub fn register_client(&mut self, client: Client)
        requires
            old(self).wf(),
            !old(self).has_client(client.id),
        ensures
            final(self).wf(),
            final(self).clients@ == old(self).clients@.push(client),
            final(self).task_queue == old(self).task_queue,
            final(self).has_client(client.id),
    {
        self.clients.push(client);
        proof {
            let n = self.clients@.len() - 1;
            assert(self.clients@[n].id == client.id);
        }
    }

    /// The position of the client with this identity, if registered.
    pub fn client_index(&self, id: u128) -> (r: Option<usize>)
        ensures
            match r {
                Some(i) => i < self.clients@.len() && self.clients@[i as int].id == id,
                None => !self.has_client(id),
            },
    {
        let n = self.clients.len();
        let mut i: usize = 0;
        while i < n
            invariant
                i <= n,
                n == self.clients@.len(),
                forall|j: int| 0 <= j < i ==> (#[trigger] self.clients@[j]).id != id,
            decreases n - i,
        {
            if self.clients[i].id == id {
                return Some(i);
            }
            i = i + 1;
        }
        None
    }

    /// Removes the client on disconnect and hands it back; the caller
    /// also deletes the client's sandbox root.
    pub fn remove_client(&mut self, id: u128) -> (r: Option<Client>)
        requires
            old(self).wf(),
        ensures
            final(self).wf(),
            final(self).task_queue == old(self).task_queue,
            !final(self).has_client(id),
            match r {
                Some(c) => c.id == id && exists|i: int|
                    0 <= i < old(self).clients@.len() && old(self).clients@[i].id == id
                        && final(self).clients@ == old(self).clients@.remove(i),
                None => !old(self).has_client(id) && final(self).clients@ == old(self).clients@,
            },
    {
        match self.client_index(id) {
            Some(i) => {
                let removed = self.clients.remove(i);
                proof {
                    assert forall|a: int, b: int|
                        0 <= a < b < self.clients@.len() implies (#[trigger] self.clients@[a]).id
                        != (#[trigger] self.clients@[b]).id by {
                        let oa = if a < i { a } else { a + 1 };
                        let ob = if b < i { b } else { b + 1 };
                        assert(self.clients@[a] == old(self).clients@[oa]);
                        assert(self.clients@[b] == old(self).clients@[ob]);
                    }
                    assert forall|a: int| 0 <= a < self.clients@.len() implies (
                    #[trigger] self.clients@[a]).id != id by {
                        let oa = if a < i { a } else { a + 1 };
                        assert(self.clients@[a] == old(self).clients@[oa]);
                    }
                }
                Some(removed)
            }
            None => None,
        }
    }

    /// Appends a job at the back of the queue.
    pub fn enqueue_job(&mut self, job: Executor)
        ensures
            final(self).task_queue@ == old(self).task_queue@.push(job),
            final(self).clients == old(self).clients,
    {
        self.task_queue.push_back(job);
    }

    /// Pops the job at the front of the queue, if any: jobs leave in
    /// the order they arrived.
    pub fn dequeue_job(&mut self) -> (r: Option<Executor>)
        ensures
            final(self).clients == old(self).clients,
            match r {
                Some(job) => old(self).task_queue@.len() > 0 && job == old(self).task_queue@[0]
                    && final(self).task_queue@ == old(self).task_queue@.drop_first(),
                None => old(self).task_queue@.len() == 0 && final(self).task_queue@
                    == old(self).task_queue@,
            },
    {
        let r = self.task_queue.pop_front();
        proof {
            if old(self).task_queue@.len() > 0 {
                assert(old(self).task_queue@.subrange(1, old(self).task_queue@.len() as int)
                    =~= old(self).task_queue@.drop_first());
            }
        }
        r
    }
}

/// Jobs leave an empty queue first-in, first-out: enqueue `a` then
/// `b`, and the first dequeue yields `a`, the second `b`, leaving the
/// queue empty again. (Completion order is not constrained.)
pub proof fn lemma_fifo_order(a: Executor, b: Executor)
    ensures
        ({
            let q0 = Seq::<Executor>::empty();
            let q2 = q0.push(a).push(b);
            &&& q2[0] == a
            &&& q2.drop_first()[0] == b
            &&& q2.drop_first().drop_first() =~= q0
        }),
{
    let q0 = Seq::<Executor>::empty();
    let q2 = q0.push(a).push(b);
    assert(q2.drop_first() =~= seq![b]);
}

/// One queued request, before it becomes a job.
#[derive(Clone)]
pub struct Runner {
    pub id: u128,
    pub nonce: String,
    pub source: String,
    pub language: Languages,
    pub commandline_arguments: String,
    pub standard_input: String,
    pub requestee: u128,
    pub executor: Option<u128>,
}

impl Runner {
    /// Turns the request into a job ready for the queue.
    pub fn batch(self) -> (r: Executor)
        requires
            self.commandline_arguments@.len() + 1 < i32::MAX,
        ensures
            r.language == self.language,
            r.src_file == self.source,
            r.nonce == Some(self.nonce),
            r.sender_id == self.requestee,
            r.allocated_dir@ == crate::exec::sandbox_dir_chars(self.requestee, r.id),
            r.terminal_feed.std_cin@.len() == 1,
            r.terminal_feed.std_cin@[0].terminal_type is StandardInput,
            r.terminal_feed.std_cin@[0].pipe_value is Some,
            r.terminal_feed.std_cin@[0].pipe_value->0@ == self.standard_input@,
            r.terminal_feed.std_cout@.len() == 0,
            r.terminal_feed.std_err@.len() == 0,
            r.terminal_feed.output@.len() == 0,
            crate::exec::split_ok(
                self.commandline_arguments@,
                crate::exec::views_of(r.commandline_arguments.arguments@),
            ),
    {
        ExecutorBuilder::new().language(self.language).input(self.standard_input).src_file(
            self.source,
        ).arguments(self.commandline_arguments).nonce(self.nonce).build(self.requestee)
    }
}

/// One inbound request, as parsed off the wire.
pub struct ExecutePacket {
    pub source: String,
    pub language: String,
    pub nonce: String,
    pub commandline_arguments: Option<String>,
    pub standard_input: Option<String>,
}

/// Collects a request's fields before it becomes a `Runner`.
pub struct RunnerBuilder {
    pub id: u128,
    pub nonce: Option<String>,
    pub source: Option<String>,
    pub language: Option<Languages>,
    pub commandline_arguments: Option<String>,
    pub standard_input: Option<String>,
    pub requestee: Option<u128>,
    pub executor: Option<u128>,
}

impl RunnerBuilder {
    pub fn new() -> (r: Self)
        ensures
            r.nonce is None,
            r.source is None,
            r.language is None,
            r.commandline_arguments is None,
            r.standard_input is None,
            r.requestee is None,
            r.executor is None,
    {
        RunnerBuilder {
            id: ids::fresh_id(),
            nonce: None,
            source: None,
            language: None,
            commandline_arguments: None,
            standard_input: None,
            requestee: None,
            executor: None,
        }
    }

    pub fn source(self, source: String) -> (r: Self)
        ensures
            r == (RunnerBuilder { source: Some(source), ..self }),
    {
        RunnerBuilder { source: Some(source), ..self }
    }

    pub fn nonce(self, nonce: String) -> (r: Self)
        ensures
            r == (RunnerBuilder { nonce: Some(nonce), ..self }),
    {
        RunnerBuilder { nonce: Some(nonce), ..self }
    }

    /// Records the language the request names; unrecognized names
    /// select Python.
    pub fn language(self, language: &str) -> (r: Self)
        ensures
            r == (RunnerBuilder { language: Some(language_of_name(language@)), ..self }),
    {
        RunnerBuilder { language: Some(Languages::from_string(language)), ..self }
    }

    pub fn arguments(self, commandline_arguments: Option<String>) -> (r: Self)
        ensures
            r == (RunnerBuilder { commandline_arguments, ..self }),
    {
        RunnerBuilder { commandline_arguments, ..self }
    }

    pub fn input(self, input: Option<String>) -> (r: Self)
        ensures
            r == (RunnerBuilder { standard_input: input, ..self }),
    {
        RunnerBuilder { standard_input: input, ..self }
    }

    /// Builds the request: source and language must have been set;
    /// nonce, arguments and stdin default to empty.
    pub fn build(self, requestee: u128) -> (r: Runner)
        requires
            self.source is Some,
            self.language is Some,
        ensures
            r.id == self.id,
            r.source == self.source->0,
            r.language == self.language->0,
            r.nonce@ == (if self.nonce is Some {
                self.nonce->0@
            } else {
                Seq::<char>::empty()
            }),
            r.commandline_arguments@ == (if self.commandline_arguments is Some {
                self.commandline_arguments->0@
            } else {
                Seq::<char>::empty()
            }),
            r.standard_input@ == (if self.standard_input is Some {
                self.standard_input->0@
            } else {
                Seq::<char>::empty()
            }),
            r.requestee == requestee,
            r.executor is None,
    {
        Runner {
            id: self.id,
            nonce: self.nonce.unwrap_or(String::new()),
            source: self.source.expect(
                "[RUNNER-BUILD]: Expected value \"source\" to be non-null",
            ),
            language: self.language.expect(
                "[RUNNER-BUILD]: Expected value \"language\" to be non-null",
            ),
            commandline_arguments: self.commandline_arguments.unwrap_or(String::new()),
            standard_input: self.standard_input.unwrap_or(String::new()),
            requestee,
            executor: None,
        }
    }
}

/// Handles one inbound text frame, already parsed or failed. A parse
/// failure yields the error frame's JSON for the offending client
/// alone and leaves the queue untouched; a parsed request becomes a
/// job tagged with the client's identity, appended to the queue.
pub fn handle_request(
    state: &mut GlobalState,
    client_id: u128,
    parsed: Result<ExecutePacket, String>,
) -> (reply: Option<String>)
    requires
        parsed matches Ok(p) ==> (match p.commandline_arguments {
            Some(a) => a@.len() + 1 < i32::MAX,
            None => true,
        }),
    ensures
        final(state).clients == old(state).clients,
        match parsed {
            Ok(p) => {
                &&& reply is None
                &&& final(state).task_queue@.len() == old(state).task_queue@.len() + 1
                &&& final(state).task_queue@.take(old(state).task_queue@.len() as int)
                    == old(state).task_queue@
                &&& final(state).task_queue@.last().language == language_of_name(p.language@)
                &&& final(state).task_queue@.last().src_file == p.source
                &&& final(state).task_queue@.last().nonce matches Some(nc) && nc@ == p.nonce@
                &&& final(state).task_queue@.last().sender_id == client_id
                &&& final(state).task_queue@.last().terminal_feed.std_cin@.len() == 1
                &&& final(state).task_queue@.last().terminal_feed.std_cin@[0].pipe_value
                    matches Some(v) && v@ == (match p.standard_input {
                    Some(s) => s@,
                    None => Seq::<char>::empty(),
                })
                &&& crate::exec::split_ok(
                    match p.commandline_arguments {
                        Some(a) => a@,
                        None => Seq::<char>::empty(),
                    },
                    crate::exec::views_of(
                        final(state).task_queue@.last().commandline_arguments.arguments@,
                    ),
                )
            },
            Err(m) => {
                &&& final(state).task_queue == old(state).task_queue
                &&& reply matches Some(text) && text@ == error_json_chars(
                    RuntimeError::ParseInput(m),
                )
            },
        },
{
    match parsed {
        Err(m) => Some(RuntimeError::ParseInput(m).as_string()),
        Ok(p) => {
            let runner = RunnerBuilder::new().arguments(p.commandline_arguments).input(
                p.standard_input,
            ).language(p.language.as_str()).source(p.source).nonce(p.nonce).build(client_id);
            let job = runner.batch();
            state.enqueue_job(job);
            proof {
                assert(final(state).task_queue@.take(old(state).task_queue@.len() as int)
                    =~= old(state).task_queue@);
            }
            None
        }
    }
}

} // verus!
