//! The sandbox directory's lifecycle, as a state the scheduler tracks
//! for each job: the directory is created when the job is dispatched,
//! exists throughout execution, and is removed once the terminal frame
//! is processed. (Removing an already absent directory is harmless, so
//! completion always ends with the directory absent.)

use vstd::prelude::*;

verus! {

/// Where a job stands in its lifecycle.
#[derive(Clone, Copy, Debug, PartialEq, Eq, Structural)]
pub enum JobPhase {
    Queued,
    Running,
    Completed,
}

/// One job's sandbox state.
#[derive(Clone, Copy, Debug)]
pub struct SandboxLifecycle {
    pub phase: JobPhase,
    pub sandbox_present: bool,
}

impl SandboxLifecycle {
    /// The directory exists exactly while the job runs: absent while
    /// queued, present throughout execution, absent after completion.
    pub open spec fn inv(self) -> bool {
        &&& self.phase is Running ==> self.sandbox_present
        &&& self.phase is Completed ==> !self.sandbox_present
        &&& self.phase is Queued ==> !self.sandbox_present
    }

    /// A queued job has no sandbox yet.
    pub fn queued() -> (r: Self)
        ensures
            r.phase is Queued,
            !r.sandbox_present,
            r.inv(),
    {
        SandboxLifecycle { phase: JobPhase::Queued, sandbox_present: false }
    }

    /// Dispatch: the scheduler creates the directory (recursively,
    /// idempotently) before execution starts.
    pub fn start(&mut self)
        requires
            old(self).inv(),
            old(self).phase is Queued,
        ensures
            final(self).phase is Running,
            final(self).sandbox_present,
            final(self).inv(),
    {
        self.phase = JobPhase::Running;
        self.sandbox_present = true;
    }

    /// The terminal frame was processed: the directory is deleted.
    pub fn finish(&mut self)
        requires
            old(self).inv(),
            old(self).phase is Running,
        ensures
            final(self).phase is Completed,
            !final(self).sandbox_present,
            final(self).inv(),
    {
        self.phase = JobPhase::Completed;
        self.sandbox_present = false;
    }
}

/// The lifecycle's two legal transitions: dispatch creates the
/// directory, completion removes it.
pub open spec fn lifecycle_step(pre: SandboxLifecycle, post: SandboxLifecycle) -> bool {
    ||| (pre.phase is Queued && post.phase is Running && post.sandbox_present)
    ||| (pre.phase is Running && post.phase is Completed && !post.sandbox_present)
}

/// The sandbox invariant is inductive: every legal transition keeps
/// the directory present exactly while the job runs, so it exists
/// throughout execution and is absent afterwards.
pub proof fn lemma_sandbox_invariant_inductive(pre: SandboxLifecycle, post: SandboxLifecycle)
    requires
        pre.inv(),
        lifecycle_step(pre, post),
    ensures
        post.inv(),
{
}

} // verus!
