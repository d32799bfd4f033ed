//! Reconstruction of a call-stack backtrace by walking the saved
//! base-pointer chain of the stopped child.
//!
//! Each frame is the pair of an instruction address and the saved base
//! pointer that anchors it; the symbol provider resolves the address to a
//! source line and an enclosing function name, either of which may be
//! unknown.  The walk ends successfully at the frame whose function
//! resolves to `main`, and defensively after a fixed number of frames, so a
//! corrupted or cyclic frame chain can never keep it running: whoever
//! drives the walk holds the frames collected so far even when a memory
//! read in the chain fails.
//!
//! The walk itself is a state machine: the driver reads the child's
//! registers and memory and feeds one resolved frame at a time into
//! [`Unwinder::on_frame`], which records it and answers either that the
//! walk is over or at which two addresses of the child's memory the return
//! address and the next saved base pointer are to be read.

use vstd::prelude::*;

verus! {

/// The defensive cap on the number of frames one backtrace may report.
pub const MAX_BACKTRACE_FRAMES: usize = 256;

/// One reported stack frame: the instruction address the frame is stopped
/// in or returns to, and what the symbol provider knows about it.
#[derive(Debug)]
pub struct FrameInfo {
    /// The instruction address of the frame.
    pub addr: usize,
    /// The source line for `addr`, when the symbol provider knows one.
    pub line: Option<usize>,
    /// The enclosing function name for `addr`, when the symbol provider
    /// knows one.
    pub func: Option<String>,
}

/// What the walk asks for after taking one frame in.
#[derive(Clone, Copy, Debug, PartialEq, Eq, Structural)]
pub enum UnwindNext {
    /// The walk is over: the frame of `main` was reached, the defensive
    /// frame bound ran out, or the next frame could not be addressed.
    Done,
    /// Read the return address at `ret_addr_at` and the next saved base
    /// pointer at `next_bp_at` from the child's memory, then report the
    /// next frame.
    Fetch { ret_addr_at: usize, next_bp_at: usize },
}

/// Whether the resolved function name is the terminal frame name `main`.
pub open spec fn is_main_name(func: Option<String>) -> bool {
    func is Some && func.unwrap()@ == "main"@
}

/// One backtrace in progress: the frames reported so far and how many more
/// the defensive bound still admits.
pub struct Unwinder {
    frames: Vec<FrameInfo>,
    budget: usize,
    done: bool,
}

impl Unwinder {
    /// The frames reported so far, in walk order: the stopped frame first.
    pub closed spec fn frames_seq(&self) -> Seq<FrameInfo> {
        self.frames@
    }

    /// Whether the walk has ended.
    pub closed spec fn spec_done(&self) -> bool {
        self.done
    }

    /// How many more frames the defensive bound admits.
    pub closed spec fn spec_budget(&self) -> usize {
        self.budget
    }

    /// Every reported frame spends one unit of the fixed budget, and a
    /// spent budget ends the walk; so the frame count never passes
    /// [`MAX_BACKTRACE_FRAMES`].
    pub open spec fn wf(&self) -> bool {
        &&& self.frames_seq().len() + self.spec_budget() == MAX_BACKTRACE_FRAMES
        &&& (self.spec_budget() == 0 ==> self.spec_done())
    }

    /// A fresh walk: no frames yet, the full budget ahead.
    pub fn new() -> (r: Unwinder)
        ensures
            r.wf(),
            !r.spec_done(),
            r.frames_seq() == Seq::<FrameInfo>::empty(),
            r.spec_budget() == MAX_BACKTRACE_FRAMES,
    {
        let r = Unwinder { frames: Vec::new(), budget: MAX_BACKTRACE_FRAMES, done: false };
        proof {
            assert(r.frames_seq() =~= Seq::<FrameInfo>::empty());
        }
        r
    }

    /// Takes in the next resolved frame of the walk and decides how to go
    /// on.  The walk ends at this frame when its function resolves to
    /// `main`, when the defensive frame bound is spent, and when the next
    /// frame's links cannot be addressed; otherwise it asks for the return
    /// address saved one word above the frame's base pointer and for the
    /// next base pointer saved at it.
    pub fn on_frame(&mut self, pc: usize, bp: usize, line: Option<usize>, func: Option<String>) -> (r:
        UnwindNext)
        requires
            old(self).wf(),
            !old(self).spec_done(),
        ensures
            final(self).wf(),
            final(self).frames_seq() == old(self).frames_seq().push(
                (FrameInfo { addr: pc, line, func }),
            ),
            final(self).spec_budget() == old(self).spec_budget() - 1,
            final(self).spec_done() <==> (is_main_name(func) || old(self).spec_budget() == 1
                || bp > usize::MAX - 8),
            r is Done <==> final(self).spec_done(),
            !final(self).spec_done() ==> r == (UnwindNext::Fetch {
                ret_addr_at: (bp + 8) as usize,
                next_bp_at: bp,
            }),
    {
        let is_main = match &func {
            Some(name) => {
                let main_name: String = "main".to_owned();
                *name == main_name
            },
            None => false,
        };
        self.frames.push(FrameInfo { addr: pc, line, func });
        self.budget = self.budget - 1;
        if is_main || self.budget == 0 || bp > usize::MAX - 8 {
            self.done = true;
            UnwindNext::Done
        } else {
            UnwindNext::Fetch { ret_addr_at: bp + 8, next_bp_at: bp }
        }
    }

    /// The frames collected so far — on an aborted walk, exactly the
    /// frames that were resolved before the chain failed.
    pub fn frames(&self) -> (r: &Vec<FrameInfo>)
        ensures
            r@ == self.frames_seq(),
    {
        &self.frames
    }

    /// Whether the walk has ended.
    pub fn is_done(&self) -> (r: bool)
        ensures
            r == self.spec_done(),
    {
        self.done
    }

    /// How many more frames the defensive bound still admits.
    pub fn remaining(&self) -> (r: usize)
        ensures
            r == self.spec_budget(),
    {
        self.budget
    }
}

/// The walk is bounded: whatever the frame chain looks like — corrupted
/// and cyclic included — a walk never reports more than
/// [`MAX_BACKTRACE_FRAMES`] frames, because every reported frame spends
/// one unit of the fixed budget and a spent budget ends the walk.
pub proof fn lemma_unwind_bounded(u: Unwinder)
    requires
        u.wf(),
    ensures
        u.frames_seq().len() <= MAX_BACKTRACE_FRAMES,
        u.spec_budget() == 0 ==> u.spec_done(),
{
}

} // verus!
