//! Classification of one wait event on the traced child.
//!
//! The OS contract for a traced child is exhaustive over three terminal wait
//! shapes: the child stopped under trace control, exited normally, or was
//! killed by a signal.  The interpreter is the pure mapping from such a
//! shape to the status the controller hands back; the instruction pointer is
//! queried only in the stopped case and is therefore an argument here.

use vstd::prelude::*;

verus! {

/// The raw result of one wait on the traced child, reduced to the three
/// shapes the OS contract guarantees, each carrying its signal number or
/// exit code as a plain value.
#[derive(Clone, Copy, Debug, PartialEq, Eq, Structural)]
pub enum WaitEvent {
    /// The child exited normally with this exit code.
    Exited(i32),
    /// The child was terminated by this signal.
    Signaled(i32),
    /// The child stopped under trace control on this signal.
    Stopped(i32),
}

/// What one resume or step of the inferior ended in.
#[derive(Clone, Copy, Debug, PartialEq, Eq, Structural)]
pub enum Status {
    /// The inferior stopped: the signal that stopped it and the instruction
    /// pointer it is stopped at.
    Stopped(i32, usize),
    /// The inferior exited normally with this exit status code.
    Exited(i32),
    /// The inferior was killed by this signal.
    Signaled(i32),
}

/// The status that a wait event classifies as, with `pc` as the instruction
/// pointer read from the child's registers in the stopped case.
pub open spec fn interpret_spec(event: WaitEvent, pc: usize) -> Status {
    match event {
        WaitEvent::Exited(code) => Status::Exited(code),
        WaitEvent::Signaled(signal) => Status::Signaled(signal),
        WaitEvent::Stopped(signal) => Status::Stopped(signal, pc),
    }
}

/// Maps a wait event to the status of the inferior.  `pc` is the current
/// instruction pointer of the stopped child and enters the status only in
/// the stopped case.
pub fn interpret(event: WaitEvent, pc: usize) -> (r: Status)
    ensures
        r == interpret_spec(event, pc),
{
    match event {
        WaitEvent::Exited(code) => Status::Exited(code),
        WaitEvent::Signaled(signal) => Status::Signaled(signal),
        WaitEvent::Stopped(signal) => Status::Stopped(signal, pc),
    }
}

/// Every one of the three terminal wait shapes is mapped to the status
/// variant of the same shape, carrying exactly the payload of the event:
/// the exit code for an exit, the signal for a signal death, and the signal
/// with the current instruction pointer for a stop.
pub proof fn lemma_status_complete(event: WaitEvent, pc: usize)
    ensures
        event is Exited ==> interpret_spec(event, pc) == Status::Exited(event->Exited_0),
        event is Signaled ==> interpret_spec(event, pc) == Status::Signaled(event->Signaled_0),
        event is Stopped ==> interpret_spec(event, pc) == Status::Stopped(event->Stopped_0, pc),
{
}

} // verus!
