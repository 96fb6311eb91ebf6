//! The multi-phase learning state machine.
//!
//! Learning puts the device into capture mode and polls it every 500 ms
//! until a code arrives, the 30-second budget runs out, or the caller
//! cancels. The RF variant first waits for a frequency lock before arming
//! capture. The machine here makes every decision from plain inputs — the
//! clock reading, the cancellation flag, and the outcome of one poll — while
//! the caller does the sleeping, sending and receiving around it.

use vstd::prelude::*;
use crate::error::ProtoError;
use crate::subcmd::{decode_rm4_response, decode_subcommand_spec};

verus! {

/// Wall-clock budget of each learning phase, in milliseconds.
pub const LEARN_TIMEOUT_MS: u64 = 30000;

/// Pause between polls, in milliseconds; the caller sleeps this long before
/// each poll.
pub const POLL_INTERVAL_MS: u64 = 500;

/// Sub-command that puts the device into IR learning mode.
pub const ENTER_IR_LEARNING: u32 = 0x03;

/// Sub-command that asks for captured data.
pub const CHECK_DATA: u32 = 0x04;

/// Sub-command that starts the RF frequency sweep.
pub const SWEEP_FREQUENCY: u32 = 0x19;

/// Sub-command that asks whether the sweep locked onto a frequency.
pub const CHECK_FREQUENCY_LOCK: u32 = 0x1a;

/// Sub-command that arms RF code capture after a lock.
pub const START_CAPTURE: u32 = 0x1b;

/// Sub-command that ends the RF sweep, sent best-effort at the end.
pub const CANCEL_SWEEP: u32 = 0x1e;

/// Sub-command that replays a stored code.
pub const SEND_CODE_COMMAND: u32 = 0x02;

/// Which kind of signal is being learned.
pub enum SignalKind {
    Ir,
    Rf,
}

/// The phase a learning operation is in. IR learning starts in `Capture`;
/// RF learning starts in `WaitLock` and moves to `Capture` only once the
/// device reports a frequency lock.
pub enum LearnPhase {
    WaitLock,
    Capture,
}

/// How a learning operation ended.
pub enum LearnOutcome {
    /// The captured code bytes.
    Code(Vec<u8>),
    /// The budget ran out with no code (or no lock).
    TimedOut,
    /// The caller set the cancellation flag.
    Cancelled,
}

/// What to do before the next poll.
pub enum LearnAction {
    /// Sleep one interval, send this sub-command, and hand the outcome to
    /// `observe`.
    Poll(u32),
    /// Stop: the operation timed out or was cancelled.
    GiveUp(LearnOutcome),
}

/// What one poll outcome means.
pub enum LearnStep {
    /// Nothing yet: keep polling.
    Continue,
    /// The frequency locked: send `START_CAPTURE`, then keep polling.
    Arm,
    /// A code arrived; learning is done.
    Finished(Vec<u8>),
}

/// The device reported a frequency lock: the decoded response's first byte
/// equals 1.
pub open spec fn lock_seen(decoded: Seq<u8>) -> bool {
    decoded.len() > 0 && decoded[0] == 1
}

/// The decoded response carries a code: non-empty with some nonzero byte.
pub open spec fn code_ready(decoded: Seq<u8>) -> bool {
    decoded.len() > 0 && (exists|i: int| 0 <= i < decoded.len() && decoded[i] != 0)
}

/// The sub-command each phase polls with.
pub open spec fn poll_command_spec(phase: LearnPhase) -> u32 {
    match phase {
        LearnPhase::WaitLock => CHECK_FREQUENCY_LOCK,
        LearnPhase::Capture => CHECK_DATA,
    }
}

/// One learning operation in progress.
pub struct LearnMachine {
    pub kind: SignalKind,
    pub phase: LearnPhase,
    /// Clock reading at the start of the current phase.
    pub phase_start_ms: u64,
    /// Budget of each phase.
    pub timeout_ms: u64,
}

impl LearnMachine {
    /// IR machines never sit in the lock-wait phase.
    pub open spec fn wf(&self) -> bool {
        self.kind is Ir ==> self.phase is Capture
    }

    /// Starts a learning operation at clock reading `now_ms` with the given
    /// per-phase budget: RF waits for a lock first, IR captures at once.
    pub fn start_with_timeout(kind: SignalKind, now_ms: u64, timeout_ms: u64) -> (m: Self)
        ensures
            m.wf(),
            m.kind == kind,
            m.phase == (if kind is Rf {
                LearnPhase::WaitLock
            } else {
                LearnPhase::Capture
            }),
            m.phase_start_ms == now_ms,
            m.timeout_ms == timeout_ms,
    {
        let phase = match kind {
            SignalKind::Rf => LearnPhase::WaitLock,
            SignalKind::Ir => LearnPhase::Capture,
        };
        LearnMachine { kind, phase, phase_start_ms: now_ms, timeout_ms }
    }

    /// `start_with_timeout` with the protocol's 30-second budget.
    pub fn start(kind: SignalKind, now_ms: u64) -> (m: Self)
        ensures
            m.wf(),
            m.kind == kind,
            m.phase == (if kind is Rf {
                LearnPhase::WaitLock
            } else {
                LearnPhase::Capture
            }),
            m.phase_start_ms == now_ms,
            m.timeout_ms == LEARN_TIMEOUT_MS,
    {
        Self::start_with_timeout(kind, now_ms, LEARN_TIMEOUT_MS)
    }

    /// The sub-command the machine's sub-command packet carries on entry:
    /// the enter-learning command for IR, the frequency sweep for RF.
    pub fn enter_command(&self) -> (c: u32)
        ensures
            c == (if self.kind is Rf {
                SWEEP_FREQUENCY
            } else {
                ENTER_IR_LEARNING
            }),
    {
        match self.kind {
            SignalKind::Rf => SWEEP_FREQUENCY,
            SignalKind::Ir => ENTER_IR_LEARNING,
        }
    }

    /// Decides what to do next, before any I/O. Cancellation wins over
    /// everything; the operation times out exactly when the clock has moved
    /// a full budget past the phase start, never earlier; otherwise the
    /// caller polls with the phase's own sub-command.
    pub fn next_action(&self, now_ms: u64, cancelled: bool) -> (a: LearnAction)
        ensures
            cancelled ==> (a matches LearnAction::GiveUp(o) && o is Cancelled),
            !cancelled && now_ms >= self.phase_start_ms + self.timeout_ms ==> (a matches
                LearnAction::GiveUp(o) && o is TimedOut),
            !cancelled && now_ms < self.phase_start_ms + self.timeout_ms ==> (a matches
                LearnAction::Poll(c) && c == poll_command_spec(self.phase)),
    {
        if cancelled {
            return LearnAction::GiveUp(LearnOutcome::Cancelled);
        }
        if now_ms >= self.phase_start_ms && now_ms - self.phase_start_ms >= self.timeout_ms {
            return LearnAction::GiveUp(LearnOutcome::TimedOut);
        }
        match self.phase {
            LearnPhase::WaitLock => LearnAction::Poll(CHECK_FREQUENCY_LOCK),
            LearnPhase::Capture => LearnAction::Poll(CHECK_DATA),
        }
    }

    /// Digests one poll outcome. Any per-poll error — the "not ready"
    /// sentinel included — leaves the machine unchanged and polling goes on;
    /// only the budget or cancellation can end the loop early. In the
    /// lock-wait phase, capture is armed exactly when the decoded response
    /// reports a lock, and only then does the phase move on (with a fresh
    /// budget). In the capture phase, learning finishes exactly when the
    /// decoded response carries a code, which is returned as-is.
    pub fn observe(&mut self, now_ms: u64, poll: Result<Vec<u8>, ProtoError>) -> (s: LearnStep)
        requires
            old(self).wf(),
        ensures
            final(self).wf(),
            final(self).kind == old(self).kind,
            final(self).timeout_ms == old(self).timeout_ms,
            poll is Err ==> s is Continue && *final(self) == *old(self),
            old(self).phase is WaitLock ==> {
                &&& (s is Arm <==> (poll matches Ok(d) && lock_seen(decode_subcommand_spec(d@))))
                &&& (s is Arm ==> final(self).phase is Capture && final(self).phase_start_ms
                    == now_ms)
                &&& (!(s is Arm) ==> s is Continue && *final(self) == *old(self))
            },
            old(self).phase is Capture ==> {
                &&& (s is Finished <==> (poll matches Ok(d) && code_ready(
                    decode_subcommand_spec(d@),
                )))
                &&& (poll matches Ok(d) ==> (s matches LearnStep::Finished(code) ==> code@
                    == decode_subcommand_spec(d@)))
                &&& (!(s is Finished) ==> s is Continue && *final(self) == *old(self))
            },
    {
        match poll {
            Err(_) => LearnStep::Continue,
            Ok(data) => {
                let decoded = decode_rm4_response(data.as_slice());
                match self.phase {
                    LearnPhase::WaitLock => {
                        if decoded.len() > 0 && decoded[0] == 1 {
                            self.phase = LearnPhase::Capture;
                            self.phase_start_ms = now_ms;
                            LearnStep::Arm
                        } else {
                            LearnStep::Continue
                        }
                    },
                    LearnPhase::Capture => {
                        if decoded.len() > 0 && has_nonzero_byte(&decoded) {
                            LearnStep::Finished(decoded)
                        } else {
                            LearnStep::Continue
                        }
                    },
                }
            },
        }
    }

    /// Whether the best-effort `CANCEL_SWEEP` is owed at the end: only an RF
    /// operation that armed capture sends it, and a cancelled one does not.
    pub fn should_cancel_sweep(&self, outcome: &LearnOutcome) -> (r: bool)
        ensures
            r == (self.kind is Rf && self.phase is Capture && !(outcome is Cancelled)),
    {
        match (&self.kind, &self.phase, outcome) {
            (SignalKind::Rf, LearnPhase::Capture, LearnOutcome::Cancelled) => false,
            (SignalKind::Rf, LearnPhase::Capture, _) => true,
            _ => false,
        }
    }
}

/// Whether any byte of `v` is nonzero.
pub fn has_nonzero_byte(v: &Vec<u8>) -> (r: bool)
    ensures
        r == (exists|i: int| 0 <= i < v@.len() && v@[i] != 0),
{
    let mut i: usize = 0;
    while i < v.len()
        invariant
            i <= v@.len(),
            forall|j: int| 0 <= j < i ==> v@[j] == 0,
        decreases v@.len() - i,
    {
        if v[i] != 0 {
            return true;
        }
        i = i + 1;
    }
    false
}

} // verus!
