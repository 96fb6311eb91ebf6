//! The typed results callers receive from device operations.

use vstd::prelude::*;
use crate::hexstr::{hex_encode, hex_of_bytes};
use crate::learn::LearnOutcome;

verus! {

/// Result of a learning operation: exactly one of `code` (hex string of the
/// captured bytes) or `error` is set, never both.
#[derive(Debug, Clone)]
pub struct LearnResult {
    pub code: Option<String>,
    pub error: Option<String>,
}

impl LearnResult {
    /// Exactly one of the two fields is set.
    pub open spec fn wf(&self) -> bool {
        (self.code is Some) != (self.error is Some)
    }
}

/// Result of a send operation: a success flag, with an error message when
/// it failed.
#[derive(Debug, Clone)]
pub struct SendResult {
    pub success: bool,
    pub error: Option<String>,
}

/// Turns how a learning operation ended into the caller-facing result: a
/// captured code becomes its lowercase hex string, a timeout or a
/// cancellation becomes the matching error message.
pub fn learn_result_from_outcome(outcome: &LearnOutcome) -> (r: LearnResult)
    ensures
        r.wf(),
        outcome matches LearnOutcome::Code(c) ==> (r.code matches Some(h) && h@ == hex_of_bytes(
            c@,
        )),
        outcome is TimedOut ==> (r.error matches Some(m) && m@
            == "Learning timeout - no signal received"@),
        outcome is Cancelled ==> (r.error matches Some(m) && m@ == "Learning cancelled"@),
{
    match outcome {
        LearnOutcome::Code(c) => LearnResult {
            code: Some(hex_encode(c.as_slice())),
            error: None,
        },
        LearnOutcome::TimedOut => LearnResult {
            code: None,
            error: Some("Learning timeout - no signal received".to_owned()),
        },
        LearnOutcome::Cancelled => LearnResult {
            code: None,
            error: Some("Learning cancelled".to_owned()),
        },
    }
}

} // verus!
