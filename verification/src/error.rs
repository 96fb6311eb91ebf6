//! Error kinds surfaced by the protocol library.

use vstd::prelude::*;

verus! {

/// Device-reported status code that means "no capture data available yet".
/// During learning polls it is swallowed; anywhere else a nonzero status is
/// a real fault.
pub const NOT_READY_CODE: u16 = 0xfffb;

/// One error kind per failure mode of the protocol.
#[derive(Debug, Clone)]
pub enum ProtoError {
    /// Socket bind/send/receive failure, including a read timeout; the text
    /// comes from the I/O layer.
    Transport(String),
    /// A response shorter than the minimum header, or a ciphertext whose
    /// length is not a multiple of the block size.
    Malformed,
    /// Nonzero device-reported status code.
    DeviceError(u16),
    /// Handshake response too short to carry a session id and key.
    Auth,
    /// Wall-clock budget exceeded during learning or lock-wait.
    Timeout,
    /// User-initiated abort of a learning operation.
    Cancelled,
}

impl ProtoError {
    /// True exactly for the device-error sentinel that means "not ready".
    pub fn is_not_ready(&self) -> (r: bool)
        ensures
            r == (self matches ProtoError::DeviceError(c) && c == NOT_READY_CODE),
    {
        match self {
            ProtoError::DeviceError(c) => *c == NOT_READY_CODE,
            _ => false,
        }
    }

    /// A short human-readable description of the error; a device error
    /// names the device's status code in hex.
    pub fn message(&self) -> (r: String)
        ensures
            self matches ProtoError::Transport(s) ==> r@ == s@,
            self is Malformed ==> r@ == "Malformed response"@,
            self matches ProtoError::DeviceError(c) ==> r@ == "Device error: "@
                + crate::discovery::hex_u16_spec(c as int),
            self is Auth ==> r@ == "Auth response too short"@,
            self is Timeout ==> r@ == "Learning timeout - no signal received"@,
            self is Cancelled ==> r@ == "Learning cancelled"@,
    {
        match self {
            ProtoError::Transport(s) => s.clone(),
            ProtoError::Malformed => "Malformed response".to_owned(),
            ProtoError::DeviceError(c) => {
                let mut r = "Device error: ".to_owned();
                let code = crate::discovery::hex_u16_string(*c);
                r.append(code.as_str());
                r
            },
            ProtoError::Auth => "Auth response too short".to_owned(),
            ProtoError::Timeout => "Learning timeout - no signal received".to_owned(),
            ProtoError::Cancelled => "Learning cancelled".to_owned(),
        }
    }
}

} // verus!
