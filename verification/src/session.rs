//! Device session state and the fixed-layout packet framer.
//!
//! A session owns the per-device protocol state: MAC, 16-bit device type,
//! AES key (the well-known default until the handshake replaces it), the
//! fixed IV, the 4-byte session id (zero before auth) and a rolling 16-bit
//! counter bumped once per request. The framer lays the cleartext 0x38-byte
//! header around the encrypted payload and writes both checksums. The socket
//! itself lives outside the library: callers send the packets these
//! functions build and hand the received bytes back for parsing.

use vstd::prelude::*;
use crate::checksum::{checksum, checksum_spec};
use crate::crypto::{cbc_decrypt_spec, cbc_encrypt_spec, decrypt, encrypt, pad16};
use crate::error::ProtoError;

verus! {

/// Well-known pre-auth AES key shared by compatible devices.
pub const DEFAULT_KEY: [u8; 16] = [
    0x09, 0x76, 0x28, 0x34, 0x3f, 0xe9, 0x9e, 0x23, 0x76, 0x5c, 0x15, 0x13, 0xac, 0xcf, 0x8b, 0x02,
];

/// Fixed IV; every request restarts its CBC chain from this value.
pub const DEFAULT_IV: [u8; 16] = [
    0x56, 0x2e, 0x17, 0x99, 0x6d, 0x09, 0x3d, 0x28, 0xdd, 0xb3, 0xba, 0x69, 0x5a, 0x2e, 0x6f, 0x58,
];

/// Opcode of the handshake request.
pub const AUTH_COMMAND: u8 = 0x65;

/// Opcode of every framed sub-command request.
pub const PACKET_COMMAND: u8 = 0x6a;

/// Length of the cleartext request/response header.
pub const HEADER_LEN: usize = 0x38;

/// Low byte of a 16-bit little-endian field.
pub open spec fn lo16(n: int) -> u8 {
    (n % 0x100) as u8
}

/// High byte of a 16-bit little-endian field.
pub open spec fn hi16(n: int) -> u8 {
    ((n / 0x100) % 0x100) as u8
}

/// The counter after one more request: incremented with wraparound.
pub open spec fn counter_next(c: u16) -> u16 {
    if c == 0xffff {
        0
    } else {
        (c + 1) as u16
    }
}

/// The 0x38-byte cleartext header, with the header-checksum field (bytes
/// 0x20 and 0x21) still zero.
pub open spec fn request_header_spec(
    device_type: u16,
    command: u8,
    count: u16,
    mac: Seq<u8>,
    session_id: Seq<u8>,
    payload_ck: int,
) -> Seq<u8> {
    Seq::new(
        0x38,
        |i: int|
            {
                if i == 0x00 {
                    0x5au8
                } else if i == 0x01 {
                    0xa5u8
                } else if i == 0x02 {
                    0xaau8
                } else if i == 0x03 {
                    0x55u8
                } else if i == 0x04 {
                    0x5au8
                } else if i == 0x05 {
                    0xa5u8
                } else if i == 0x06 {
                    0xaau8
                } else if i == 0x07 {
                    0x55u8
                } else if i == 0x24 {
                    lo16(device_type as int)
                } else if i == 0x25 {
                    hi16(device_type as int)
                } else if i == 0x26 {
                    command
                } else if i == 0x28 {
                    lo16(count as int)
                } else if i == 0x29 {
                    hi16(count as int)
                } else if 0x2a <= i < 0x30 {
                    mac[i - 0x2a]
                } else if 0x30 <= i < 0x34 {
                    session_id[i - 0x30]
                } else if i == 0x34 {
                    lo16(payload_ck)
                } else if i == 0x35 {
                    hi16(payload_ck)
                } else {
                    0u8
                }
            },
    )
}

/// The whole request datagram for a session `s` whose counter was already
/// bumped: header plus encrypted payload, with the payload checksum over the
/// cleartext payload and the header checksum computed while its own field
/// holds zero.
pub open spec fn request_packet_spec(s: DeviceSession, command: u8, payload: Seq<u8>) -> Seq<u8> {
    let enc = cbc_encrypt_spec(s.key@, s.iv@, pad16(payload));
    let base = request_header_spec(
        s.device_type,
        command,
        s.counter,
        s.device_mac@,
        s.session_id@,
        checksum_spec(payload),
    ) + enc;
    let ck = checksum_spec(base);
    base.update(0x20, lo16(ck)).update(0x21, hi16(ck))
}

/// The device-reported status code of a response: 16 bits little-endian at
/// offset 0x22.
pub open spec fn response_error_code(resp: Seq<u8>) -> int {
    resp[0x22] + 0x100 * resp[0x23]
}

/// Protocol state of one device connection.
pub struct DeviceSession {
    pub device_mac: [u8; 6],
    pub device_type: u16,
    pub key: [u8; 16],
    pub iv: [u8; 16],
    pub session_id: [u8; 4],
    pub counter: u16,
}

impl DeviceSession {
    /// A fresh session: default key and IV, zero session id, counter at zero.
    pub fn new(device_mac: [u8; 6], device_type: u16) -> (s: Self)
        ensures
            s.device_mac@ == device_mac@,
            s.device_type == device_type,
            s.key@ == DEFAULT_KEY@,
            s.iv@ == DEFAULT_IV@,
            s.session_id@ =~= seq![0u8, 0u8, 0u8, 0u8],
            s.counter == 0,
    {
        DeviceSession {
            device_mac,
            device_type,
            key: DEFAULT_KEY,
            iv: DEFAULT_IV,
            session_id: [0u8, 0u8, 0u8, 0u8],
            counter: 0,
        }
    }

    /// Builds the next request datagram: bumps the counter, encrypts the
    /// payload and frames it. Both checksum fields provably hold the rolling
    /// checksum of what they cover — the header checksum recomputed over the
    /// packet with its own field zeroed matches the stored value.
    pub fn prepare_packet(&mut self, command: u8, payload: &[u8]) -> (r: Vec<u8>)
        requires
            payload@.len() + 0x48 <= usize::MAX,
        ensures
            final(self).counter == counter_next(old(self).counter),
            final(self).device_mac@ == old(self).device_mac@,
            final(self).device_type == old(self).device_type,
            final(self).key@ == old(self).key@,
            final(self).iv@ == old(self).iv@,
            final(self).session_id@ == old(self).session_id@,
            r@ == request_packet_spec(*final(self), command, payload@),
            r@.len() == 0x38 + pad16(payload@).len(),
            r@[0x20] + 0x100 * r@[0x21] == checksum_spec(r@.update(0x20, 0u8).update(0x21, 0u8)),
            r@[0x34] + 0x100 * r@[0x35] == checksum_spec(payload@),
    {
        if self.counter == 0xffff {
            self.counter = 0;
        } else {
            self.counter = self.counter + 1;
        }
        let encrypted = encrypt(&self.key, &self.iv, payload);
        let payload_ck = checksum(payload);
        let mut packet: Vec<u8> = vec![0u8; 0x38];
        packet[0x00] = 0x5a;
        packet[0x01] = 0xa5;
        packet[0x02] = 0xaa;
        packet[0x03] = 0x55;
        packet[0x04] = 0x5a;
        packet[0x05] = 0xa5;
        packet[0x06] = 0xaa;
        packet[0x07] = 0x55;
        packet[0x24] = (self.device_type % 0x100) as u8;
        packet[0x25] = ((self.device_type / 0x100) % 0x100) as u8;
        packet[0x26] = command;
        packet[0x28] = (self.counter % 0x100) as u8;
        packet[0x29] = ((self.counter / 0x100) % 0x100) as u8;
        packet[0x2a] = self.device_mac[0];
        packet[0x2b] = self.device_mac[1];
        packet[0x2c] = self.device_mac[2];
        packet[0x2d] = self.device_mac[3];
        packet[0x2e] = self.device_mac[4];
        packet[0x2f] = self.device_mac[5];
        packet[0x30] = self.session_id[0];
        packet[0x31] = self.session_id[1];
        packet[0x32] = self.session_id[2];
        packet[0x33] = self.session_id[3];
        packet[0x34] = (payload_ck % 0x100) as u8;
        packet[0x35] = ((payload_ck / 0x100) % 0x100) as u8;
        proof {
            let h = request_header_spec(
                self.device_type,
                command,
                self.counter,
                self.device_mac@,
                self.session_id@,
                checksum_spec(payload@),
            );
            assert forall|j: int| 0 <= j < 0x38 implies packet@[j] == h[j] by {}
            assert(packet@ =~= h);
        }
        let ghost header = packet@;
        let mut k: usize = 0;
        while k < encrypted.len()
            invariant
                k <= encrypted@.len(),
                packet@ == header + encrypted@.take(k as int),
            decreases encrypted@.len() - k,
        {
            proof {
                assert(header + encrypted@.take(k as int).push(encrypted@[k as int]) =~= header
                    + encrypted@.take(k + 1));
            }
            packet.push(encrypted[k]);
            k = k + 1;
        }
        proof {
            assert(header + encrypted@.take(encrypted@.len() as int) =~= header + encrypted@);
        }
        let ghost base = packet@;
        let ck = checksum(packet.as_slice());
        packet[0x20] = (ck % 0x100) as u8;
        packet[0x21] = ((ck / 0x100) % 0x100) as u8;
        proof {
            assert(base[0x20] == 0u8 && base[0x21] == 0u8);
            assert(packet@.update(0x20, 0u8).update(0x21, 0u8) =~= base);
            assert(packet@ =~= request_packet_spec(*self, command, payload@));
        }
        packet
    }

    /// Interprets a response datagram: rejects one under the 0x38-byte
    /// header as malformed, surfaces a nonzero device status as
    /// `DeviceError` with that exact code, and otherwise decrypts whatever
    /// follows the header (empty when nothing does). The ciphertext length
    /// must be a whole number of blocks, else the response is malformed.
    pub fn parse_response(&self, resp: &[u8]) -> (r: Result<Vec<u8>, ProtoError>)
        ensures
            r is Ok <==> (resp@.len() >= 0x38 && response_error_code(resp@) == 0 && (resp@.len()
                - 0x38) % 16 == 0),
            r matches Ok(v) ==> v@ == cbc_decrypt_spec(self.key@, self.iv@, resp@.skip(0x38)),
            resp@.len() < 0x38 ==> (r matches Err(e) && e matches ProtoError::Malformed),
            resp@.len() >= 0x38 && response_error_code(resp@) != 0 ==> (r matches Err(e) && e
                matches ProtoError::DeviceError(c) && c == response_error_code(resp@)),
            resp@.len() >= 0x38 && response_error_code(resp@) == 0 && (resp@.len() - 0x38) % 16
                != 0 ==> (r matches Err(e) && e matches ProtoError::Malformed),
    {
        if resp.len() < HEADER_LEN {
            return Err(ProtoError::Malformed);
        }
        let err: u16 = resp[0x22] as u16 + 0x100 * resp[0x23] as u16;
        if err != 0 {
            return Err(ProtoError::DeviceError(err));
        }
        let body = vstd::slice::slice_subrange(resp, 0x38, resp.len());
        proof {
            assert(body@ =~= resp@.skip(0x38));
        }
        decrypt(&self.key, &self.iv, body)
    }

    /// Applies the handshake response: a response under 0x14 bytes fails
    /// with `Auth` and leaves the session unchanged; otherwise its first 4
    /// bytes become the session id and the following 16 replace the key.
    pub fn apply_auth_response(&mut self, resp: &[u8]) -> (r: Result<(), ProtoError>)
        ensures
            r is Ok <==> resp@.len() >= 0x14,
            r is Ok ==> final(self).session_id@ == resp@.subrange(0, 4) && final(self).key@
                == resp@.subrange(4, 0x14),
            r is Err ==> final(self).session_id@ == old(self).session_id@ && final(self).key@
                == old(self).key@,
            r matches Err(e) ==> e matches ProtoError::Auth,
            final(self).device_mac@ == old(self).device_mac@,
            final(self).device_type == old(self).device_type,
            final(self).iv@ == old(self).iv@,
            final(self).counter == old(self).counter,
    {
        if resp.len() < AUTH_RESPONSE_MIN_LEN {
            return Err(ProtoError::Auth);
        }
        let mut i: usize = 0;
        while i < 4
            invariant
                i <= 4,
                resp@.len() >= 0x14,
                forall|j: int| 0 <= j < i ==> self.session_id@[j] == resp@[j],
                forall|j: int| i <= j < 4 ==> self.session_id@[j] == old(self).session_id@[j],
                self.device_mac@ == old(self).device_mac@,
                self.device_type == old(self).device_type,
                self.key@ == old(self).key@,
                self.iv@ == old(self).iv@,
                self.counter == old(self).counter,
            decreases 4 - i,
        {
            self.session_id[i] = resp[i];
            i = i + 1;
        }
        let mut k: usize = 0;
        while k < 16
            invariant
                k <= 16,
                resp@.len() >= 0x14,
                forall|j: int| 0 <= j < k ==> self.key@[j] == resp@[4 + j],
                forall|j: int| k <= j < 16 ==> self.key@[j] == old(self).key@[j],
                self.session_id@ == resp@.subrange(0, 4).add(Seq::empty()),
                self.device_mac@ == old(self).device_mac@,
                self.device_type == old(self).device_type,
                self.iv@ == old(self).iv@,
                self.counter == old(self).counter,
            decreases 16 - k,
        {
            self.key[k] = resp[4 + k];
            k = k + 1;
        }
        proof {
            assert(self.key@ =~= resp@.subrange(4, 0x14));
            assert(self.session_id@ =~= resp@.subrange(0, 4));
        }
        Ok(())
    }
}

/// The 0x50-byte handshake payload: a fixed filler pattern at bytes
/// 0x04..0x14, marker bytes at 0x1e and 0x2d, and a 6-byte device-name
/// field at 0x30..0x36.
pub open spec fn auth_payload_spec() -> Seq<u8> {
    Seq::new(
        0x50,
        |i: int|
            {
                if 0x04 <= i < 0x14 {
                    0x31u8
                } else if i == 0x1e {
                    0x01u8
                } else if i == 0x2d {
                    0x01u8
                } else if i == 0x30 {
                    0x54u8
                } else if i == 0x31 {
                    0x65u8
                } else if i == 0x32 {
                    0x73u8
                } else if i == 0x33 {
                    0x74u8
                } else if i == 0x34 {
                    0x20u8
                } else if i == 0x35 {
                    0x31u8
                } else {
                    0u8
                }
            },
    )
}

/// Builds the handshake payload, byte for byte `auth_payload_spec`.
pub fn build_auth_payload() -> (r: Vec<u8>)
    ensures
        r@ == auth_payload_spec(),
{
    let mut payload: Vec<u8> = vec![0u8; 0x50];
    let mut i: usize = 0x04;
    while i < 0x14
        invariant
            0x04 <= i <= 0x14,
            payload@.len() == 0x50,
            forall|j: int| 0x04 <= j < i ==> payload@[j] == 0x31u8,
            forall|j: int| 0 <= j < 0x50 && !(0x04 <= j < i) ==> payload@[j] == 0u8,
        decreases 0x14 - i,
    {
        payload[i] = 0x31;
        i = i + 1;
    }
    payload[0x1e] = 0x01;
    payload[0x2d] = 0x01;
    // The device-name field: the bytes of "Test 1".
    payload[0x30] = 0x54;
    payload[0x31] = 0x65;
    payload[0x32] = 0x73;
    payload[0x33] = 0x74;
    payload[0x34] = 0x20;
    payload[0x35] = 0x31;
    proof {
        assert forall|j: int| 0 <= j < 0x50 implies payload@[j] == auth_payload_spec()[j] by {}
        assert(payload@ =~= auth_payload_spec());
    }
    payload
}

/// The minimum handshake-response length: 4 id bytes plus 16 key bytes.
pub const AUTH_RESPONSE_MIN_LEN: usize = 0x14;

/// Builds the request datagram that carries one sub-command: the
/// length-prefixed sub-command encoding wrapped in the framed packet, under
/// the sub-command opcode. This is the compute half of every learning poll
/// and of code replay; the caller sends the bytes and parses the response.
pub fn subcommand_request(session: &mut DeviceSession, sub: u32, data: &[u8]) -> (r: Vec<u8>)
    requires
        data@.len() + 0x4e <= usize::MAX,
    ensures
        final(session).counter == counter_next(old(session).counter),
        final(session).device_mac@ == old(session).device_mac@,
        final(session).device_type == old(session).device_type,
        final(session).key@ == old(session).key@,
        final(session).iv@ == old(session).iv@,
        final(session).session_id@ == old(session).session_id@,
        r@ == request_packet_spec(
            *final(session),
            PACKET_COMMAND,
            crate::subcmd::encode_subcommand_spec(sub, data@),
        ),
{
    let payload = crate::subcmd::encode_rm4_command(sub, data);
    session.prepare_packet(PACKET_COMMAND, payload.as_slice())
}

/// Builds the request datagram that replays a stored code, given as the hex
/// string the learning operation produced. Fails exactly when the text is
/// not well-formed hex (or, on paper, when the decoded code cannot fit in a
/// datagram); a failure leaves the session untouched.
pub fn send_code_request(session: &mut DeviceSession, code: &str) -> (r: Result<
    Vec<u8>,
    ProtoError,
>)
    ensures
        r is Ok <==> (crate::hexstr::is_hex_string(code@) && crate::hexstr::bytes_of_hex(
            code@,
        ).len() + 0x4e <= usize::MAX),
        r matches Ok(v) ==> {
            &&& final(session).counter == counter_next(old(session).counter)
            &&& v@ == request_packet_spec(
                *final(session),
                PACKET_COMMAND,
                crate::subcmd::encode_subcommand_spec(
                    crate::learn::SEND_CODE_COMMAND,
                    crate::hexstr::bytes_of_hex(code@),
                ),
            )
        },
        r is Err ==> *final(session) == *old(session),
        r matches Err(e) ==> e matches ProtoError::Malformed,
        final(session).device_mac@ == old(session).device_mac@,
        final(session).device_type == old(session).device_type,
        final(session).key@ == old(session).key@,
        final(session).iv@ == old(session).iv@,
        final(session).session_id@ == old(session).session_id@,
{
    let code_bytes = match crate::hexstr::hex_decode(code) {
        Ok(b) => b,
        Err(_) => {
            return Err(ProtoError::Malformed);
        },
    };
    if code_bytes.len() > usize::MAX - 0x4e {
        return Err(ProtoError::Malformed);
    }
    Ok(subcommand_request(session, crate::learn::SEND_CODE_COMMAND, code_bytes.as_slice()))
}

} // verus!
