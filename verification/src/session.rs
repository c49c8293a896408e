//! One run of the captured-input command executor as a state machine:
//! `Created → Capturing → Ready → Dispatching → Terminated`, then workspace
//! teardown. No phase may be skipped, no phase is retried, and every failure
//! is terminal. The critical invariant is the workspace's lifetime: the
//! directory and file outlive the spawned child, and they can be released
//! only once an exit outcome exists.
//!
//! The surrounding binary drives the machine: it performs the reads, writes,
//! the spawn and the wait, and reports each step here, receiving in return
//! the computed values — the file's contents, the final argument list and
//! the exit outcome.

use crate::capture::capture_contents;
use crate::capture::captured;
use crate::config::Config;
use crate::dispatch::rewrite_args;
use crate::outcome::CHILD_SIGNALLED_CODE;
use crate::outcome::FailureKind;
use crate::outcome::child_exit_outcome;
use crate::replace::replace_all;
use vstd::prelude::*;

verus! {

/// The phases of one run, in their strict order.
#[derive(Clone, Copy, Debug, PartialEq, Eq, Structural)]
pub enum Phase {
    /// The workspace directory has been allocated; nothing was read yet.
    Created,
    /// Standard input is being drained into the workspace file.
    Capturing,
    /// The file is durable and its path is known.
    Ready,
    /// The child has been spawned and is being waited for.
    Dispatching,
    /// An exit outcome is available; teardown may follow.
    Terminated,
}

/// One run. The phase and the workspace's state only move through the
/// methods below, each of which steps a single transition.
pub struct Session {
    config: Config,
    phase: Phase,
    workspace_alive: bool,
    outcome: Option<i32>,
}

impl Session {
    /// The run's current phase.
    pub closed spec fn spec_phase(self) -> Phase {
        self.phase
    }

    /// Whether the workspace directory and file still exist.
    pub closed spec fn spec_workspace_alive(self) -> bool {
        self.workspace_alive
    }

    /// The run's exit outcome, once one exists.
    pub closed spec fn spec_outcome(self) -> Option<i32> {
        self.outcome
    }

    /// The configuration the run was started with.
    pub closed spec fn spec_config(self) -> Config {
        self.config
    }

    /// The run's invariant: the workspace stays alive through every phase
    /// before termination — in particular while the child runs — and an exit
    /// outcome exists exactly from termination on.
    pub open spec fn wf(self) -> bool {
        &&& (self.spec_phase() != Phase::Terminated ==> self.spec_workspace_alive())
        &&& (self.spec_outcome() is Some <==> self.spec_phase() == Phase::Terminated)
    }

    /// Enters `Created`: the caller has just allocated the private workspace
    /// directory. A failure to allocate it is fatal before any run exists;
    /// it is reported with `FailureKind::WorkspaceError`'s code.
    pub fn start(config: Config) -> (s: Session)
        requires
            config.wf(),
        ensures
            s.wf(),
            s.spec_phase() == Phase::Created,
            s.spec_workspace_alive(),
            s.spec_config() == config,
    {
        Session { config, phase: Phase::Created, workspace_alive: true, outcome: None }
    }

    /// `Created → Capturing`: the engine begins draining standard input.
    pub fn begin_capture(&mut self)
        requires
            old(self).wf(),
            old(self).spec_phase() == Phase::Created,
        ensures
            final(self).wf(),
            final(self).spec_phase() == Phase::Capturing,
            final(self).spec_workspace_alive(),
            final(self).spec_config() == old(self).spec_config(),
    {
        self.phase = Phase::Capturing;
    }

    /// The capture engine's work: the drained input becomes the workspace
    /// file's contents — the input itself in binary mode, every line before
    /// the marker line in text mode. The caller writes the returned bytes to
    /// the file while still capturing; the phase moves on only once they are
    /// durable.
    pub fn capture(&self, input: &Vec<u8>) -> (contents: Vec<u8>)
        requires
            self.wf(),
            self.spec_phase() == Phase::Capturing,
        ensures
            contents@ == captured(input@, self.spec_config().spec_marker()),
    {
        let mode = self.config.capture_mode();
        capture_contents(input, &mode)
    }

    /// `Capturing → Ready`: the workspace file's contents are durable, so a
    /// child opening the path from here on observes a complete file.
    pub fn finish_capture(&mut self)
        requires
            old(self).wf(),
            old(self).spec_phase() == Phase::Capturing,
        ensures
            final(self).wf(),
            final(self).spec_phase() == Phase::Ready,
            final(self).spec_workspace_alive(),
            final(self).spec_config() == old(self).spec_config(),
    {
        self.phase = Phase::Ready;
    }

    /// A fatal I/O failure while reading the input or writing the file:
    /// `Capturing → Terminated` with the reserved capture code. The
    /// workspace is still alive; it is torn down by the normal unwind.
    pub fn fail_capture(&mut self) -> (code: i32)
        requires
            old(self).wf(),
            old(self).spec_phase() == Phase::Capturing,
        ensures
            final(self).wf(),
            final(self).spec_phase() == Phase::Terminated,
            final(self).spec_workspace_alive(),
            code == FailureKind::CaptureError.spec_exit_code(),
            final(self).spec_outcome() == Some(code),
    {
        let code = FailureKind::CaptureError.exit_code();
        self.phase = Phase::Terminated;
        self.outcome = Some(code);
        code
    }

    /// `Ready → Dispatching`: yields the final argument list for the spawn,
    /// rewritten around the workspace file's path. The workspace is alive at
    /// this moment — the moment the child is spawned — and the invariant
    /// keeps it alive for the whole wait.
    pub fn begin_dispatch(&mut self, path: &Vec<u8>) -> (args: Vec<Vec<u8>>)
        requires
            old(self).wf(),
            old(self).spec_phase() == Phase::Ready,
        ensures
            final(self).wf(),
            final(self).spec_phase() == Phase::Dispatching,
            final(self).spec_workspace_alive(),
            final(self).spec_config() == old(self).spec_config(),
            old(self).spec_config().placeholder matches Some(pat) ==> (args@.len() == old(
                self,
            ).spec_config().arguments@.len() && (forall|i: int|
                0 <= i < args@.len() ==> args@[i]@ == replace_all(
                    old(self).spec_config().arguments@[i]@,
                    pat@,
                    path@,
                ))),
            old(self).spec_config().placeholder is None ==> (args@.len() == old(
                self,
            ).spec_config().arguments@.len() + 1 && (forall|i: int|
                0 <= i < args@.len() - 1 ==> args@[i]@ == old(self).spec_config().arguments@[i]@)
                && args@[args@.len() - 1]@ == path@),
    {
        self.phase = Phase::Dispatching;
        rewrite_args(&self.config.arguments, &self.config.placeholder, path)
    }

    /// The spawn itself failed — the utility was not found or not
    /// executable: `Dispatching → Terminated` with the reserved spawn code,
    /// distinct from any child's own failure. The workspace is still alive
    /// and is still torn down afterwards.
    pub fn fail_spawn(&mut self) -> (code: i32)
        requires
            old(self).wf(),
            old(self).spec_phase() == Phase::Dispatching,
        ensures
            final(self).wf(),
            final(self).spec_phase() == Phase::Terminated,
            final(self).spec_workspace_alive(),
            code == FailureKind::SpawnError.spec_exit_code(),
            final(self).spec_outcome() == Some(code),
    {
        let code = FailureKind::SpawnError.exit_code();
        self.phase = Phase::Terminated;
        self.outcome = Some(code);
        code
    }

    /// `Dispatching → Terminated`: the wait on the child has returned. The
    /// exit outcome is the child's own code on normal termination, the fixed
    /// nonzero sentinel when the code is unavailable. The workspace was
    /// alive throughout the wait and still is; only now may it be released.
    pub fn finish_dispatch(&mut self, code: Option<i32>) -> (outcome: i32)
        requires
            old(self).wf(),
            old(self).spec_phase() == Phase::Dispatching,
        ensures
            final(self).wf(),
            final(self).spec_phase() == Phase::Terminated,
            final(self).spec_workspace_alive(),
            outcome == (match code {
                Some(c) => c,
                None => CHILD_SIGNALLED_CODE,
            }),
            final(self).spec_outcome() == Some(outcome),
    {
        let outcome = child_exit_outcome(code);
        self.phase = Phase::Terminated;
        self.outcome = Some(outcome);
        outcome
    }

    /// Tears the workspace down. Only a terminated run can release it: as
    /// long as the child may still open the file by its path, the directory
    /// must stay, so no earlier phase admits this step.
    pub fn release_workspace(&mut self)
        requires
            old(self).wf(),
            old(self).spec_phase() == Phase::Terminated,
        ensures
            final(self).wf(),
            final(self).spec_phase() == Phase::Terminated,
            !final(self).spec_workspace_alive(),
            final(self).spec_outcome() == old(self).spec_outcome(),
    {
        self.workspace_alive = false;
    }

    /// The run's current phase.
    pub fn phase(&self) -> (p: Phase)
        ensures
            p == self.spec_phase(),
    {
        self.phase
    }

    /// Whether the workspace directory and file still exist.
    pub fn workspace_alive(&self) -> (a: bool)
        ensures
            a == self.spec_workspace_alive(),
    {
        self.workspace_alive
    }

    /// The run's exit outcome, present exactly once the run has terminated.
    pub fn exit_outcome(&self) -> (o: Option<i32>)
        ensures
            o == self.spec_outcome(),
    {
        self.outcome
    }
}

/// The workspace outlives the child: in every phase before `Terminated` —
/// the moment of the spawn and the whole wait included — the workspace
/// directory and file still exist.
pub proof fn lemma_workspace_outlives_child(s: Session)
    requires
        s.wf(),
        s.spec_phase() != Phase::Terminated,
    ensures
        s.spec_workspace_alive(),
{
}

/// An exit outcome exists exactly from termination on: the dispatcher cannot
/// report one while the child still runs, and the workspace can be released
/// only in a phase that has one.
pub proof fn lemma_outcome_only_after_termination(s: Session)
    requires
        s.wf(),
    ensures
        s.spec_outcome() is Some <==> s.spec_phase() == Phase::Terminated,
{
}

} // verus!
