use deet::breakpoints::BreakpointTable;
use deet::inferior::{ControlError, Controller, LaunchError, ResumePrep, StepVerdict};
use deet::inferior::step_over_verdict;
use deet::parse::parse_address;
use deet::patch::{align_addr_to_word, byte_offset_in_word, extract_byte, patched_word, replace_byte};
use deet::status::{interpret, Status, WaitEvent};
use deet::unwind::{Unwinder, UnwindNext, MAX_BACKTRACE_FRAMES};
use deet::TRAP_BYTE;

const SIGTRAP: i32 = 5;

// ---- memory patcher arithmetic ----

#[test]
fn align_rounds_down_to_word() {
    assert_eq!(align_addr_to_word(0x401005), 0x401000);
    assert_eq!(align_addr_to_word(0x401000), 0x401000);
    assert_eq!(align_addr_to_word(7), 0);
    assert_eq!(align_addr_to_word(8), 8);
}

#[test]
fn byte_offset_is_low_bits() {
    assert_eq!(byte_offset_in_word(0x401005), 5);
    assert_eq!(byte_offset_in_word(0x401000), 0);
    assert_eq!(byte_offset_in_word(15), 7);
}

#[test]
fn extract_byte_little_endian() {
    let w: u64 = 0x1122334455667788;
    assert_eq!(extract_byte(w, 0), 0x88);
    assert_eq!(extract_byte(w, 3), 0x55);
    assert_eq!(extract_byte(w, 7), 0x11);
}

#[test]
fn replace_byte_exact() {
    let w: u64 = 0x1122334455667788;
    assert_eq!(replace_byte(w, 0, 0xcc), 0x11223344556677cc);
    assert_eq!(replace_byte(w, 7, 0xcc), 0xcc22334455667788);
}

#[test]
fn install_then_restore_is_identity() {
    // Install the trap byte, then write the saved byte back: the word must
    // be byte-for-byte what it was.
    let w: u64 = 0x4889e5c3f4909090;
    for k in 0..8 {
        let (orig, patched) = patched_word(w, k, TRAP_BYTE);
        assert_eq!(orig, extract_byte(w, k));
        assert_eq!(extract_byte(patched, k), TRAP_BYTE);
        let (trap, restored) = patched_word(patched, k, orig);
        assert_eq!(trap, TRAP_BYTE);
        assert_eq!(restored, w);
    }
}

// ---- breakpoint table ----

#[test]
fn table_read_your_writes() {
    let mut t = BreakpointTable::new();
    assert!(!t.contains(0x1000));
    assert_eq!(t.lookup(0x1000), None);
    t.record(0x1000);
    assert!(t.contains(0x1000));
    assert_eq!(t.lookup(0x1000), None);
    t.mark_installed(0x1000, 0x8b);
    assert_eq!(t.lookup(0x1000), Some(0x8b));
}

#[test]
fn rerecording_keeps_saved_byte() {
    let mut t = BreakpointTable::new();
    t.record(0x2000);
    t.mark_installed(0x2000, 0x55);
    t.record(0x2000);
    assert_eq!(t.lookup(0x2000), Some(0x55));
}

#[test]
fn table_keys_are_independent() {
    let mut t = BreakpointTable::new();
    t.record(0x1000);
    t.record(0x2000);
    t.mark_installed(0x2000, 0x31);
    assert_eq!(t.lookup(0x1000), None);
    assert_eq!(t.lookup(0x2000), Some(0x31));
    assert!(!t.contains(0x3000));
    assert_eq!(t.lookup(0x3000), None);
}

// ---- status interpreter ----

#[test]
fn status_exited_keeps_code() {
    assert_eq!(interpret(WaitEvent::Exited(0), 0x77), Status::Exited(0));
    assert_eq!(interpret(WaitEvent::Exited(3), 0), Status::Exited(3));
}

#[test]
fn status_signaled_keeps_signal() {
    assert_eq!(interpret(WaitEvent::Signaled(9), 0x77), Status::Signaled(9));
}

#[test]
fn status_stopped_carries_signal_and_pc() {
    assert_eq!(
        interpret(WaitEvent::Stopped(SIGTRAP), 0x40115b),
        Status::Stopped(SIGTRAP, 0x40115b)
    );
}

// ---- controller ----

#[test]
fn launch_needs_initial_stop() {
    let c = Controller::from_initial_stop(4242, WaitEvent::Stopped(SIGTRAP));
    let c = c.expect("initial stop must be accepted");
    assert_eq!(c.pid(), 4242);
    assert!(c.is_alive());
    assert_eq!(
        Controller::from_initial_stop(4242, WaitEvent::Exited(1)).err(),
        Some(LaunchError::UnexpectedInitialState)
    );
    assert_eq!(
        Controller::from_initial_stop(4242, WaitEvent::Signaled(9)).err(),
        Some(LaunchError::UnexpectedInitialState)
    );
}

#[test]
fn resume_without_breakpoints_is_plain_continue() {
    let c = Controller::from_initial_stop(1, WaitEvent::Stopped(SIGTRAP)).unwrap();
    assert_eq!(c.plan_resume(0x401000), Ok(ResumePrep::ContinueOnly));
    assert_eq!(c.plan_resume(0), Ok(ResumePrep::ContinueOnly));
}

#[test]
fn uninstalled_breakpoint_is_not_armed() {
    // A recorded address whose original byte was never captured must not
    // trigger the step-over sequence.
    let mut c = Controller::from_initial_stop(1, WaitEvent::Stopped(SIGTRAP)).unwrap();
    c.record_breakpoint(0x1000);
    assert!(c.needs_install(0x1000));
    assert_eq!(c.plan_resume(0x1001), Ok(ResumePrep::ContinueOnly));
}

#[test]
fn resume_after_trap_is_step_over() {
    let mut c = Controller::from_initial_stop(1, WaitEvent::Stopped(SIGTRAP)).unwrap();
    c.record_breakpoint(0x1000);
    c.mark_installed(0x1000, 0x8b);
    assert!(!c.needs_install(0x1000));
    assert_eq!(
        c.plan_resume(0x1001),
        Ok(ResumePrep::StepOver { addr: 0x1000, orig_byte: 0x8b })
    );
    // Stopped anywhere else: no step-over.
    assert_eq!(c.plan_resume(0x1000), Ok(ResumePrep::ContinueOnly));
    assert_eq!(c.plan_resume(0x2001), Ok(ResumePrep::ContinueOnly));
}

#[test]
fn step_verdict_rearms_only_when_stopped() {
    assert_eq!(
        step_over_verdict(0x1000, Status::Stopped(SIGTRAP, 0x1001)),
        StepVerdict::RearmAndContinue { addr: 0x1000 }
    );
    assert_eq!(
        step_over_verdict(0x1000, Status::Exited(0)),
        StepVerdict::Terminal { status: Status::Exited(0) }
    );
    assert_eq!(
        step_over_verdict(0x1000, Status::Signaled(9)),
        StepVerdict::Terminal { status: Status::Signaled(9) }
    );
}

#[test]
fn step_over_keeps_breakpoint_armed() {
    // Hit the trap, step over, re-arm: a later pass over the same site must
    // plan the same step-over again.
    let mut c = Controller::from_initial_stop(1, WaitEvent::Stopped(SIGTRAP)).unwrap();
    c.record_breakpoint(0x1000);
    c.mark_installed(0x1000, 0x8b);
    let prep = c.plan_resume(0x1001).unwrap();
    assert_eq!(prep, ResumePrep::StepOver { addr: 0x1000, orig_byte: 0x8b });
    let verdict = step_over_verdict(0x1000, Status::Stopped(SIGTRAP, 0x1000));
    assert_eq!(verdict, StepVerdict::RearmAndContinue { addr: 0x1000 });
    c.mark_installed(0x1000, 0x8b);
    assert_eq!(
        c.plan_resume(0x1001),
        Ok(ResumePrep::StepOver { addr: 0x1000, orig_byte: 0x8b })
    );
}

#[test]
fn dead_inferior_fails_fast() {
    let mut c = Controller::from_initial_stop(1, WaitEvent::Stopped(SIGTRAP)).unwrap();
    c.mark_dead();
    assert!(!c.is_alive());
    assert_eq!(c.plan_resume(0x401000), Err(ControlError::InferiorDead));
}

// ---- unwinder ----

#[test]
fn unwind_stops_at_main() {
    let mut u = Unwinder::new();
    let next = u.on_frame(0x401200, 0x7ffdeadbe000, Some(12), Some(String::from("helper")));
    assert_eq!(
        next,
        UnwindNext::Fetch { ret_addr_at: 0x7ffdeadbe008, next_bp_at: 0x7ffdeadbe000 }
    );
    let next = u.on_frame(0x401100, 0x7ffdeadbe100, Some(30), Some(String::from("main")));
    assert_eq!(next, UnwindNext::Done);
    assert!(u.is_done());
    let frames = u.frames();
    assert_eq!(frames.len(), 2);
    assert_eq!(frames[0].addr, 0x401200);
    assert_eq!(frames[0].line, Some(12));
    assert_eq!(frames[0].func.as_deref(), Some("helper"));
    assert_eq!(frames[1].addr, 0x401100);
    assert_eq!(frames[1].func.as_deref(), Some("main"));
}

#[test]
fn unwind_goes_on_past_unknown_symbols() {
    // A symbol miss is not an error: the walk reports the frame with
    // placeholders and keeps going.
    let mut u = Unwinder::new();
    let next = u.on_frame(0xdead0000, 0x1000, None, None);
    assert_eq!(next, UnwindNext::Fetch { ret_addr_at: 0x1008, next_bp_at: 0x1000 });
    assert_eq!(u.frames()[0].line, None);
    assert_eq!(u.frames()[0].func, None);
}

#[test]
fn unwind_stops_on_unaddressable_chain() {
    // A base pointer so high that the frame links cannot be addressed ends
    // the walk, keeping the frames collected so far.
    let mut u = Unwinder::new();
    let next = u.on_frame(0x401200, usize::MAX, None, Some(String::from("helper")));
    assert_eq!(next, UnwindNext::Done);
    assert!(u.is_done());
    assert_eq!(u.frames().len(), 1);
}

#[test]
fn unwind_is_bounded_on_cyclic_chain() {
    // A cyclic frame chain that never reaches main ends within the
    // defensive bound.
    let mut u = Unwinder::new();
    let mut steps: usize = 0;
    while !u.is_done() {
        let next = u.on_frame(0x401200, 0x7000, None, Some(String::from("helper")));
        steps += 1;
        assert!(steps <= MAX_BACKTRACE_FRAMES);
        if steps < MAX_BACKTRACE_FRAMES {
            assert_eq!(next, UnwindNext::Fetch { ret_addr_at: 0x7008, next_bp_at: 0x7000 });
        } else {
            assert_eq!(next, UnwindNext::Done);
        }
    }
    assert_eq!(steps, MAX_BACKTRACE_FRAMES);
    assert_eq!(u.frames().len(), MAX_BACKTRACE_FRAMES);
    assert_eq!(u.remaining(), 0);
}

// ---- address parsing ----

#[test]
fn parse_address_accepts_hex_forms() {
    assert_eq!(parse_address("0x400000"), Some(0x400000));
    assert_eq!(parse_address("400000"), Some(0x400000));
    assert_eq!(parse_address("0X1F"), Some(31));
    assert_eq!(parse_address("1f"), Some(31));
    assert_eq!(parse_address("+1f"), Some(31));
    assert_eq!(parse_address("0x+5"), Some(5));
    assert_eq!(parse_address("0"), Some(0));
    assert_eq!(parse_address("ffffffffffffffff"), Some(usize::MAX));
}

#[test]
fn parse_address_rejects_non_addresses() {
    assert_eq!(parse_address(""), None);
    assert_eq!(parse_address("0x"), None);
    assert_eq!(parse_address("+"), None);
    assert_eq!(parse_address("0x+"), None);
    assert_eq!(parse_address("zz"), None);
    assert_eq!(parse_address("-1f"), None);
    assert_eq!(parse_address("1f "), None);
    assert_eq!(parse_address("0x10g0"), None);
    assert_eq!(parse_address("++5"), None);
    // One digit past what a usize can hold.
    assert_eq!(parse_address("10000000000000000"), None);
}

// ---- full scenario, driven on plain values ----

#[test]
fn scenario_break_run_step_exit() {
    // Launch a target with a breakpoint at the address of its second
    // statement, continue to the trap, step over it, and run to a clean
    // exit.  The kernel's side of the exchange is played here by the wait
    // events and memory words a live run would produce.
    let bp_addr: usize = 0x40115a;
    let pid: u32 = 4242;

    // The child requests tracing and stops before its first own
    // instruction.
    let mut c = Controller::from_initial_stop(pid, WaitEvent::Stopped(SIGTRAP)).unwrap();
    assert_eq!(c.pid(), pid);

    // The front-end sets the breakpoint; the driver patches the trap into
    // the word holding the site and records the saved byte.
    let word_at_site: u64 = 0x4889e5c3f4909090;
    c.record_breakpoint(bp_addr);
    assert!(c.needs_install(bp_addr));
    let offset = byte_offset_in_word(bp_addr);
    let (orig_byte, trapped_word) = patched_word(word_at_site, offset, TRAP_BYTE);
    c.mark_installed(bp_addr, orig_byte);
    assert!(!c.needs_install(bp_addr));

    // First resume: nothing to step over; the child runs until it executes
    // the trap and stops one byte past the breakpoint address.
    assert_eq!(c.plan_resume(0x401000), Ok(ResumePrep::ContinueOnly));
    let status = interpret(WaitEvent::Stopped(SIGTRAP), bp_addr + 1);
    assert_eq!(status, Status::Stopped(SIGTRAP, bp_addr + 1));

    // At the stop, the symbol provider resolves the breakpoint address to
    // the source line of the second statement, and a backtrace from it
    // ends at the frame of main.
    let mut walk = Unwinder::new();
    let next = walk.on_frame(bp_addr, 0x7ffc00000000, Some(7), Some(String::from("main")));
    assert_eq!(next, UnwindNext::Done);
    assert_eq!(walk.frames()[0].line, Some(7));
    assert_eq!(walk.frames()[0].func.as_deref(), Some("main"));

    // Second resume: the planner orders the step-over.  Restoring the
    // saved byte leaves the site's word exactly as before installation.
    assert_eq!(
        c.plan_resume(bp_addr + 1),
        Ok(ResumePrep::StepOver { addr: bp_addr, orig_byte })
    );
    let (trap, restored_word) = patched_word(trapped_word, offset, orig_byte);
    assert_eq!(trap, TRAP_BYTE);
    assert_eq!(restored_word, word_at_site);

    // The single step lands on an ordinary instruction: re-arm and
    // continue.
    let step_status = interpret(WaitEvent::Stopped(SIGTRAP), bp_addr + 1);
    assert_eq!(
        step_over_verdict(bp_addr, step_status),
        StepVerdict::RearmAndContinue { addr: bp_addr }
    );
    let (orig_again, rearmed_word) = patched_word(restored_word, offset, TRAP_BYTE);
    assert_eq!(orig_again, orig_byte);
    assert_eq!(rearmed_word, trapped_word);
    c.mark_installed(bp_addr, orig_byte);

    // The child runs to completion and exits cleanly.
    let final_status = interpret(WaitEvent::Exited(0), 0);
    assert_eq!(final_status, Status::Exited(0));
    c.mark_dead();
    assert_eq!(c.plan_resume(bp_addr + 1), Err(ControlError::InferiorDead));
}
