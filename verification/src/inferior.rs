//! The controller of one live traced child: who it is, whether it is still
//! alive, which breakpoints it carries, and the decisions of the
//! resume protocol.
//!
//! Resuming a child that sits one byte past an armed trap takes the
//! restore-rewind-step-rearm sequence: write the saved original byte back
//! over the trap, rewind the instruction pointer onto it, single-step that
//! one instruction, and only if the child is still alive re-install the
//! trap before letting it run free.  The controller plans this sequence
//! from its table and the current instruction pointer; the unverified
//! driver issues the trace syscalls the plan calls for and feeds the wait
//! results back in as plain values.

use vstd::prelude::*;
use crate::breakpoints::{installed_byte, BreakpointTable};
use crate::status::{Status, WaitEvent};

verus! {

/// Why a launch produced no live inferior.
#[derive(Clone, Copy, Debug, PartialEq, Eq, Structural)]
pub enum LaunchError {
    /// The OS could not create the target process.
    SpawnFailed,
    /// The first wait event on the spawned child was not the expected
    /// initial trace stop.
    UnexpectedInitialState,
}

/// Why the controller refused to plan a resume.
#[derive(Clone, Copy, Debug, PartialEq, Eq, Structural)]
pub enum ControlError {
    /// The inferior was already killed or has terminated: a resume must
    /// fail fast instead of blocking on a dead process.
    InferiorDead,
}

/// What has to happen before the child is allowed to run free again.
#[derive(Clone, Copy, Debug, PartialEq, Eq, Structural)]
pub enum ResumePrep {
    /// The child sits one byte past the armed trap at `addr`: restore
    /// `orig_byte` there, rewind the instruction pointer to `addr`, and
    /// single-step one instruction before continuing.
    StepOver { addr: usize, orig_byte: u8 },
    /// The child is not sitting after an armed trap: continue directly.
    ContinueOnly,
}

/// What to do once the single step of a step-over has been waited on.
#[derive(Clone, Copy, Debug, PartialEq, Eq, Structural)]
pub enum StepVerdict {
    /// The child is still alive: re-install the trap at `addr`, then
    /// continue, so future passes over the site still stop there.
    RearmAndContinue { addr: usize },
    /// The child exited or was killed during the single step: hand this
    /// status back at once and do not touch its memory again.
    Terminal { status: Status },
}

/// The step-over site that a resume at instruction pointer `pc` must carry
/// the child across: the breakpoint one byte before `pc`, provided a trap
/// is installed there with a validly saved original byte.
pub open spec fn step_over_site(m: Map<usize, Option<u8>>, pc: usize) -> Option<(usize, u8)> {
    if pc >= 1 && installed_byte(m, (pc - 1) as usize) is Some {
        Some((((pc - 1) as usize), installed_byte(m, (pc - 1) as usize).unwrap()))
    } else {
        None
    }
}

/// One live traced child and the breakpoints set in it.
pub struct Controller {
    pid: u32,
    alive: bool,
    table: BreakpointTable,
}

impl Controller {
    /// The process identifier of the inferior.
    pub closed spec fn spec_pid(&self) -> u32 {
        self.pid
    }

    /// Whether the inferior has not yet been observed dead or been killed.
    pub closed spec fn spec_alive(&self) -> bool {
        self.alive
    }

    /// The breakpoint table of the inferior: address to saved-byte state.
    pub closed spec fn bp_map(&self) -> Map<usize, Option<u8>> {
        self.table@
    }

    /// Takes ownership of a freshly spawned child once the first wait event
    /// on it has been seen.  The launch contract demands that the child
    /// requests tracing before executing its own code, so the first event
    /// must be a trace stop; anything else refuses the launch.
    pub fn from_initial_stop(pid: u32, first: WaitEvent) -> (r: Result<Controller, LaunchError>)
        ensures
            r is Ok <==> first is Stopped,
            !(first is Stopped) ==> r == Err::<Controller, LaunchError>(
                LaunchError::UnexpectedInitialState,
            ),
            r is Ok ==> r->Ok_0.spec_pid() == pid,
            r is Ok ==> r->Ok_0.spec_alive(),
            r is Ok ==> r->Ok_0.bp_map() == Map::<usize, Option<u8>>::empty(),
    {
        match first {
            WaitEvent::Stopped(_signal) => Ok(
                Controller { pid, alive: true, table: BreakpointTable::new() },
            ),
            _ => Err(LaunchError::UnexpectedInitialState),
        }
    }

    /// The process identifier of this inferior.
    pub fn pid(&self) -> (r: u32)
        ensures
            r == self.spec_pid(),
    {
        self.pid
    }

    /// Whether a resume may still be planned for this inferior.
    pub fn is_alive(&self) -> (r: bool)
        ensures
            r == self.spec_alive(),
    {
        self.alive
    }

    /// Notes that the inferior is gone: it was killed on request or its
    /// last wait event was terminal.  Later resumes fail fast.
    pub fn mark_dead(&mut self)
        ensures
            !final(self).spec_alive(),
            final(self).spec_pid() == old(self).spec_pid(),
            final(self).bp_map() == old(self).bp_map(),
    {
        self.alive = false;
    }

    /// Records `addr` as a breakpoint address of this inferior.  A known
    /// address is left untouched, so a saved original byte survives
    /// re-recording.
    pub fn record_breakpoint(&mut self, addr: usize)
        ensures
            final(self).bp_map() == if old(self).bp_map().dom().contains(addr) {
                old(self).bp_map()
            } else {
                old(self).bp_map().insert(addr, None::<u8>)
            },
            final(self).spec_pid() == old(self).spec_pid(),
            final(self).spec_alive() == old(self).spec_alive(),
    {
        self.table.record(addr);
    }

    /// Whether the trap byte still has to be patched into the child at
    /// `addr`: true exactly when no original byte is saved for `addr`.
    pub fn needs_install(&self, addr: usize) -> (r: bool)
        ensures
            r == (installed_byte(self.bp_map(), addr) is None),
    {
        match self.table.lookup(addr) {
            Some(_) => false,
            None => true,
        }
    }

    /// Marks the breakpoint at `addr` as installed in the child, with
    /// `byte` as the original byte the trap replaced.
    pub fn mark_installed(&mut self, addr: usize, byte: u8)
        ensures
            final(self).bp_map() == old(self).bp_map().insert(addr, Some(byte)),
            final(self).spec_pid() == old(self).spec_pid(),
            final(self).spec_alive() == old(self).spec_alive(),
    {
        self.table.mark_installed(addr, byte);
    }

    /// The saved original byte of the installed breakpoint at `addr`, if
    /// any.
    pub fn lookup_breakpoint(&self, addr: usize) -> (r: Option<u8>)
        ensures
            r == installed_byte(self.bp_map(), addr),
    {
        self.table.lookup(addr)
    }

    /// Plans the next resume for a child whose current instruction pointer
    /// is `pc`.  On a dead inferior the plan fails fast.  Otherwise the
    /// plan is a step-over exactly when the child sits one byte past an
    /// armed trap with a validly saved original byte; a breakpoint address
    /// whose byte was never captured is not treated as armed.
    pub fn plan_resume(&self, pc: usize) -> (r: Result<ResumePrep, ControlError>)
        ensures
            !self.spec_alive() ==> r == Err::<ResumePrep, ControlError>(ControlError::InferiorDead),
            self.spec_alive() ==> r == Ok::<ResumePrep, ControlError>(
                match step_over_site(self.bp_map(), pc) {
                    Some(site) => (ResumePrep::StepOver { addr: site.0, orig_byte: site.1 }),
                    None => ResumePrep::ContinueOnly,
                },
            ),
    {
        if !self.alive {
            return Err(ControlError::InferiorDead);
        }
        if pc >= 1 {
            match self.table.lookup(pc - 1) {
                Some(orig_byte) => Ok(ResumePrep::StepOver { addr: pc - 1, orig_byte }),
                None => Ok(ResumePrep::ContinueOnly),
            }
        } else {
            Ok(ResumePrep::ContinueOnly)
        }
    }
}

/// What follows the single step of a step-over across the breakpoint at
/// `addr`, once the step's wait result has been classified as `st`: if the
/// child exited or was killed during the step, that status is final and the
/// trap is not re-armed; if it stopped, the trap at `addr` is re-installed
/// before the child is allowed to run free.
pub fn step_over_verdict(addr: usize, st: Status) -> (r: StepVerdict)
    ensures
        st is Stopped ==> r == (StepVerdict::RearmAndContinue { addr }),
        !(st is Stopped) ==> r == (StepVerdict::Terminal { status: st }),
{
    match st {
        Status::Stopped(_, _) => StepVerdict::RearmAndContinue { addr },
        _ => StepVerdict::Terminal { status: st },
    }
}

/// Step-over keeps the breakpoint armed.  If a trap is installed at `addr`
/// with saved byte `b` and the child stops at `addr + 1` — one byte past
/// the trap it just hit — the planner orders exactly one step-over of
/// `addr` restoring `b`, so the original instruction runs exactly once
/// while the child is between resumes.  Re-installing the trap with the
/// same saved byte afterwards leaves the table exactly as it was, so a
/// later stop at `addr + 1` orders the same step-over again: a loop that
/// revisits the site keeps hitting the breakpoint.
pub proof fn lemma_step_over_rearm(m: Map<usize, Option<u8>>, addr: usize, b: u8)
    requires
        installed_byte(m, addr) == Some(b),
        addr < usize::MAX,
    ensures
        step_over_site(m, (addr + 1) as usize) == Some((addr, b)),
        m.insert(addr, Some(b)) == m,
        step_over_site(m.insert(addr, Some(b)), (addr + 1) as usize) == Some((addr, b)),
{
    assert(m.dom().contains(addr));
    assert(m.insert(addr, Some(b)) =~= m);
}

} // verus!
