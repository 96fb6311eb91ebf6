//! Learning state-machine tests: timeout, cancellation, RF lock gating and
//! the "not ready" sentinel.

use remote_bridge::error::{ProtoError, NOT_READY_CODE};
use remote_bridge::learn::{
    LearnAction, LearnMachine, LearnOutcome, LearnPhase, LearnStep, SignalKind, CHECK_DATA,
    CHECK_FREQUENCY_LOCK, ENTER_IR_LEARNING, SWEEP_FREQUENCY,
};
use remote_bridge::results::learn_result_from_outcome;
use remote_bridge::subcmd::encode_rm4_command;

fn poll_payload(data: &[u8]) -> Vec<u8> {
    // A device response carrying `data` behind the length-and-command prefix.
    encode_rm4_command(0, data)
}

#[test]
fn ir_machine_polls_check_data_at_once() {
    let m = LearnMachine::start(SignalKind::Ir, 1000);
    assert_eq!(m.enter_command(), ENTER_IR_LEARNING);
    assert!(matches!(m.next_action(1000, false), LearnAction::Poll(CHECK_DATA)));
}

#[test]
fn rf_machine_waits_for_lock_first() {
    let m = LearnMachine::start(SignalKind::Rf, 0);
    assert_eq!(m.enter_command(), SWEEP_FREQUENCY);
    assert!(matches!(m.next_action(0, false), LearnAction::Poll(CHECK_FREQUENCY_LOCK)));
}

#[test]
fn timeout_exactly_at_budget() {
    let m = LearnMachine::start_with_timeout(SignalKind::Ir, 1000, 3000);
    assert!(matches!(m.next_action(3999, false), LearnAction::Poll(_)));
    assert!(matches!(
        m.next_action(4000, false),
        LearnAction::GiveUp(LearnOutcome::TimedOut)
    ));
    assert!(matches!(
        m.next_action(9999, false),
        LearnAction::GiveUp(LearnOutcome::TimedOut)
    ));
}

#[test]
fn cancellation_wins_over_everything() {
    let m = LearnMachine::start(SignalKind::Ir, 0);
    assert!(matches!(
        m.next_action(0, true),
        LearnAction::GiveUp(LearnOutcome::Cancelled)
    ));
    // Even past the deadline, cancellation is what is reported.
    assert!(matches!(
        m.next_action(999_999, true),
        LearnAction::GiveUp(LearnOutcome::Cancelled)
    ));
}

#[test]
fn no_satisfying_response_times_out_not_earlier() {
    // A simulated poll loop whose responses never carry a code.
    let mut m = LearnMachine::start_with_timeout(SignalKind::Ir, 0, 3000);
    let mut now = 0u64;
    let mut polls = 0;
    loop {
        match m.next_action(now, false) {
            LearnAction::Poll(cmd) => {
                assert_eq!(cmd, CHECK_DATA);
                now += 500;
                polls += 1;
                let step = m.observe(now, Ok(poll_payload(&[])));
                assert!(matches!(step, LearnStep::Continue));
            }
            LearnAction::GiveUp(outcome) => {
                assert!(matches!(outcome, LearnOutcome::TimedOut));
                break;
            }
        }
    }
    assert_eq!(polls, 6);
    assert_eq!(now, 3000);
}

#[test]
fn code_with_nonzero_byte_finishes_capture() {
    let mut m = LearnMachine::start(SignalKind::Ir, 0);
    let step = m.observe(500, Ok(poll_payload(&[0x26, 0x00, 0xaa])));
    match step {
        LearnStep::Finished(code) => assert_eq!(code, vec![0x26, 0x00, 0xaa]),
        _ => panic!("expected a finished capture"),
    }
}

#[test]
fn all_zero_code_keeps_polling() {
    let mut m = LearnMachine::start(SignalKind::Ir, 0);
    let step = m.observe(500, Ok(poll_payload(&[0, 0, 0])));
    assert!(matches!(step, LearnStep::Continue));
}

#[test]
fn not_ready_sentinel_does_not_end_the_loop() {
    let mut m = LearnMachine::start(SignalKind::Ir, 0);
    let step = m.observe(500, Err(ProtoError::DeviceError(NOT_READY_CODE)));
    assert!(matches!(step, LearnStep::Continue));
    // Any other per-poll error keeps polling as well.
    let step = m.observe(1000, Err(ProtoError::DeviceError(0x0001)));
    assert!(matches!(step, LearnStep::Continue));
    let step = m.observe(1500, Err(ProtoError::Transport("receive failed".to_string())));
    assert!(matches!(step, LearnStep::Continue));
    // The loop still times out on schedule afterwards.
    assert!(matches!(
        m.next_action(30_000, false),
        LearnAction::GiveUp(LearnOutcome::TimedOut)
    ));
}

#[test]
fn is_not_ready_distinguishes_the_sentinel() {
    assert!(ProtoError::DeviceError(NOT_READY_CODE).is_not_ready());
    assert!(!ProtoError::DeviceError(1).is_not_ready());
    assert!(!ProtoError::Malformed.is_not_ready());
}

#[test]
fn rf_lock_never_reported_times_out_in_wait_lock() {
    let mut m = LearnMachine::start_with_timeout(SignalKind::Rf, 0, 2000);
    let mut now = 0u64;
    loop {
        match m.next_action(now, false) {
            LearnAction::Poll(cmd) => {
                // Capture is never armed, so every poll is a lock check.
                assert_eq!(cmd, CHECK_FREQUENCY_LOCK);
                now += 500;
                let step = m.observe(now, Ok(poll_payload(&[0])));
                assert!(matches!(step, LearnStep::Continue));
            }
            LearnAction::GiveUp(outcome) => {
                assert!(matches!(outcome, LearnOutcome::TimedOut));
                break;
            }
        }
    }
    assert!(matches!(m.phase, LearnPhase::WaitLock));
}

#[test]
fn rf_lock_arms_capture_with_fresh_budget() {
    let mut m = LearnMachine::start_with_timeout(SignalKind::Rf, 0, 3000);
    let step = m.observe(2500, Ok(poll_payload(&[1])));
    assert!(matches!(step, LearnStep::Arm));
    assert!(matches!(m.phase, LearnPhase::Capture));
    // The capture phase gets its own budget measured from the lock.
    assert!(matches!(m.next_action(3000, false), LearnAction::Poll(CHECK_DATA)));
    assert!(matches!(
        m.next_action(5500, false),
        LearnAction::GiveUp(LearnOutcome::TimedOut)
    ));
}

#[test]
fn rf_lock_needs_first_byte_one() {
    let mut m = LearnMachine::start(SignalKind::Rf, 0);
    assert!(matches!(m.observe(500, Ok(poll_payload(&[2]))), LearnStep::Continue));
    assert!(matches!(m.phase, LearnPhase::WaitLock));
    assert!(matches!(m.observe(1000, Ok(poll_payload(&[]))), LearnStep::Continue));
    assert!(matches!(m.phase, LearnPhase::WaitLock));
}

#[test]
fn cancel_sweep_owed_only_after_arming_and_not_on_cancel() {
    let mut rf = LearnMachine::start(SignalKind::Rf, 0);
    // Still waiting for the lock: no sweep to cancel.
    assert!(!rf.should_cancel_sweep(&LearnOutcome::TimedOut));
    let _ = rf.observe(500, Ok(poll_payload(&[1])));
    assert!(rf.should_cancel_sweep(&LearnOutcome::TimedOut));
    assert!(rf.should_cancel_sweep(&LearnOutcome::Code(vec![1])));
    assert!(!rf.should_cancel_sweep(&LearnOutcome::Cancelled));
    let ir = LearnMachine::start(SignalKind::Ir, 0);
    assert!(!ir.should_cancel_sweep(&LearnOutcome::TimedOut));
}

#[test]
fn learn_result_carries_hex_code_or_error() {
    let r = learn_result_from_outcome(&LearnOutcome::Code(vec![0x26, 0x00, 0xab]));
    assert_eq!(r.code.as_deref(), Some("2600ab"));
    assert!(r.error.is_none());

    let r = learn_result_from_outcome(&LearnOutcome::TimedOut);
    assert!(r.code.is_none());
    assert_eq!(r.error.as_deref(), Some("Learning timeout - no signal received"));

    let r = learn_result_from_outcome(&LearnOutcome::Cancelled);
    assert!(r.code.is_none());
    assert_eq!(r.error.as_deref(), Some("Learning cancelled"));
}
