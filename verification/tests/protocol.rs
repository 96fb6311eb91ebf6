//! Wire-level tests: checksum, encryption, sub-command codec and framing.

use remote_bridge::checksum::checksum;
use remote_bridge::crypto::{decrypt, encrypt};
use remote_bridge::error::ProtoError;
use remote_bridge::session::{build_auth_payload, DeviceSession, DEFAULT_IV, DEFAULT_KEY};
use remote_bridge::subcmd::{decode_rm4_response, encode_rm4_command};

const MAC: [u8; 6] = [0xe8, 0x16, 0x56, 0x00, 0x11, 0x22];

#[test]
fn checksum_of_empty_is_seed() {
    assert_eq!(checksum(&[]), 0xbeaf);
}

#[test]
fn checksum_adds_byte_values() {
    assert_eq!(checksum(&[1, 2, 3]), 0xbeaf + 6);
}

#[test]
fn checksum_wraps_at_sixteen_bits() {
    let data = vec![0xffu8; 300];
    let expected = ((0xbeafu32 + 300 * 0xff) % 0x10000) as u16;
    assert_eq!(checksum(&data), expected);
}

#[test]
fn checksum_is_insensitive_to_byte_order() {
    assert_eq!(checksum(&[1, 2]), checksum(&[2, 1]));
}

#[test]
fn encrypt_decrypt_round_trip_pads_with_zeros() {
    let plain = b"hello device";
    let cipher = encrypt(&DEFAULT_KEY, &DEFAULT_IV, plain);
    assert_eq!(cipher.len(), 16);
    let back = decrypt(&DEFAULT_KEY, &DEFAULT_IV, &cipher).unwrap();
    let mut padded = plain.to_vec();
    padded.resize(16, 0);
    assert_eq!(back, padded);
}

#[test]
fn encrypt_round_trip_multi_block() {
    let plain: Vec<u8> = (0u8..40).collect();
    let cipher = encrypt(&DEFAULT_KEY, &DEFAULT_IV, &plain);
    assert_eq!(cipher.len(), 48);
    let back = decrypt(&DEFAULT_KEY, &DEFAULT_IV, &cipher).unwrap();
    let mut padded = plain.clone();
    padded.resize(48, 0);
    assert_eq!(back, padded);
}

#[test]
fn encrypt_of_empty_payload_is_empty() {
    let cipher = encrypt(&DEFAULT_KEY, &DEFAULT_IV, &[]);
    assert_eq!(cipher.len(), 0);
}

#[test]
fn encrypt_is_not_the_identity() {
    let plain = [0u8; 16];
    let cipher = encrypt(&DEFAULT_KEY, &DEFAULT_IV, &plain);
    assert_ne!(cipher, plain.to_vec());
}

#[test]
fn encrypt_is_deterministic() {
    let plain = b"same input";
    let a = encrypt(&DEFAULT_KEY, &DEFAULT_IV, plain);
    let b = encrypt(&DEFAULT_KEY, &DEFAULT_IV, plain);
    assert_eq!(a, b);
}

#[test]
fn decrypt_rejects_partial_blocks() {
    let r = decrypt(&DEFAULT_KEY, &DEFAULT_IV, &[0u8; 17]);
    assert!(matches!(r, Err(ProtoError::Malformed)));
}

#[test]
fn subcommand_encode_exact_bytes() {
    let enc = encode_rm4_command(0x03, &[]);
    assert_eq!(enc, vec![0x04, 0x00, 0x03, 0x00, 0x00, 0x00]);
    let enc = encode_rm4_command(0x0a0b0c0d, &[0xff]);
    assert_eq!(enc, vec![0x05, 0x00, 0x0d, 0x0c, 0x0b, 0x0a, 0xff]);
}

#[test]
fn subcommand_round_trip() {
    for data in [&b""[..], &b"\x01"[..], &b"code bytes \x00\x07"[..]] {
        let enc = encode_rm4_command(0x02, data);
        assert_eq!(decode_rm4_response(&enc), data.to_vec());
    }
}

#[test]
fn decode_short_payload_is_empty() {
    for n in 0..6usize {
        let payload = vec![0xffu8; n];
        assert_eq!(decode_rm4_response(&payload), Vec::<u8>::new());
    }
}

#[test]
fn decode_respects_length_field() {
    // Length field says 5, so one data byte follows the 4 command bytes;
    // the trailing junk byte is cut off.
    let payload = [0x05, 0x00, 0x04, 0x00, 0x00, 0x00, 0xaa, 0xbb];
    assert_eq!(decode_rm4_response(&payload), vec![0xaa]);
}

#[test]
fn session_starts_with_defaults() {
    let s = DeviceSession::new(MAC, 0x520b);
    assert_eq!(s.key, DEFAULT_KEY);
    assert_eq!(s.iv, DEFAULT_IV);
    assert_eq!(s.session_id, [0, 0, 0, 0]);
    assert_eq!(s.counter, 0);
}

#[test]
fn prepare_packet_lays_out_header() {
    let mut s = DeviceSession::new(MAC, 0x520b);
    let packet = s.prepare_packet(0x6a, &[1, 2, 3]);
    assert_eq!(s.counter, 1);
    assert_eq!(packet.len(), 0x38 + 16);
    assert_eq!(&packet[0..8], &[0x5a, 0xa5, 0xaa, 0x55, 0x5a, 0xa5, 0xaa, 0x55]);
    assert_eq!(packet[0x24], 0x0b);
    assert_eq!(packet[0x25], 0x52);
    assert_eq!(packet[0x26], 0x6a);
    assert_eq!(packet[0x28], 1);
    assert_eq!(packet[0x29], 0);
    assert_eq!(&packet[0x2a..0x30], &MAC);
    assert_eq!(&packet[0x30..0x34], &[0, 0, 0, 0]);
    // Payload checksum over the cleartext payload.
    let payload_ck = 0xbeafu16 + 6;
    assert_eq!(packet[0x34], (payload_ck & 0xff) as u8);
    assert_eq!(packet[0x35], (payload_ck >> 8) as u8);
}

#[test]
fn prepare_packet_header_checksum_recomputes() {
    let mut s = DeviceSession::new(MAC, 0x520b);
    let packet = s.prepare_packet(0x6a, b"payload");
    let stored = packet[0x20] as u16 | ((packet[0x21] as u16) << 8);
    let mut zeroed = packet.clone();
    zeroed[0x20] = 0;
    zeroed[0x21] = 0;
    assert_eq!(checksum(&zeroed), stored);
}

#[test]
fn counter_increments_and_wraps() {
    let mut s = DeviceSession::new(MAC, 0x520b);
    s.counter = 0xffff;
    let _ = s.prepare_packet(0x6a, &[]);
    assert_eq!(s.counter, 0);
}

#[test]
fn parse_response_rejects_short_responses() {
    let s = DeviceSession::new(MAC, 0x520b);
    let r = s.parse_response(&[0u8; 0x37]);
    assert!(matches!(r, Err(ProtoError::Malformed)));
}

#[test]
fn parse_response_surfaces_device_error_code() {
    let s = DeviceSession::new(MAC, 0x520b);
    let mut resp = vec![0u8; 0x38];
    resp[0x22] = 0xfb;
    resp[0x23] = 0xff;
    let r = s.parse_response(&resp);
    assert!(matches!(r, Err(ProtoError::DeviceError(0xfffb))));
}

#[test]
fn parse_response_decrypts_body() {
    let s = DeviceSession::new(MAC, 0x520b);
    let body = encrypt(&DEFAULT_KEY, &DEFAULT_IV, b"data!");
    let mut resp = vec![0u8; 0x38];
    resp.extend_from_slice(&body);
    let out = s.parse_response(&resp).unwrap();
    let mut padded = b"data!".to_vec();
    padded.resize(16, 0);
    assert_eq!(out, padded);
}

#[test]
fn parse_response_empty_body_is_ok_empty() {
    let s = DeviceSession::new(MAC, 0x520b);
    let resp = vec![0u8; 0x38];
    assert_eq!(s.parse_response(&resp).unwrap(), Vec::<u8>::new());
}

#[test]
fn parse_response_rejects_partial_cipher_block() {
    let s = DeviceSession::new(MAC, 0x520b);
    let resp = vec![0u8; 0x38 + 5];
    assert!(matches!(s.parse_response(&resp), Err(ProtoError::Malformed)));
}

#[test]
fn auth_payload_exact_layout() {
    let p = build_auth_payload();
    assert_eq!(p.len(), 0x50);
    for i in 0x04..0x14 {
        assert_eq!(p[i], 0x31);
    }
    assert_eq!(p[0x1e], 0x01);
    assert_eq!(p[0x2d], 0x01);
    assert_eq!(&p[0x30..0x36], b"Test 1");
    assert_eq!(p[0x00], 0);
    assert_eq!(p[0x4f], 0);
}

#[test]
fn auth_response_updates_session_key_and_id() {
    let mut s = DeviceSession::new(MAC, 0x520b);
    let mut resp = Vec::new();
    resp.extend_from_slice(&[9, 8, 7, 6]);
    resp.extend_from_slice(&[0x42; 16]);
    s.apply_auth_response(&resp).unwrap();
    assert_eq!(s.session_id, [9, 8, 7, 6]);
    assert_eq!(s.key, [0x42; 16]);
    assert_eq!(s.iv, DEFAULT_IV);
}

#[test]
fn auth_response_too_short_fails() {
    let mut s = DeviceSession::new(MAC, 0x520b);
    let r = s.apply_auth_response(&[0u8; 0x13]);
    assert!(matches!(r, Err(ProtoError::Auth)));
    assert_eq!(s.key, DEFAULT_KEY);
    assert_eq!(s.session_id, [0, 0, 0, 0]);
}

#[test]
fn send_code_request_frames_the_code() {
    let mut s = DeviceSession::new(MAC, 0x520b);
    let packet = remote_bridge::session::send_code_request(&mut s, "2600ab").unwrap();
    assert_eq!(s.counter, 1);
    assert_eq!(packet[0x26], 0x6a);
    // The encrypted payload decrypts to the framed sub-command, zero-padded.
    let body = decrypt(&DEFAULT_KEY, &DEFAULT_IV, &packet[0x38..]).unwrap();
    let mut expected = encode_rm4_command(0x02, &[0x26, 0x00, 0xab]);
    expected.resize(16, 0);
    assert_eq!(body, expected);
}

#[test]
fn send_code_request_rejects_bad_hex() {
    let mut s = DeviceSession::new(MAC, 0x520b);
    assert!(matches!(
        remote_bridge::session::send_code_request(&mut s, "not hex"),
        Err(ProtoError::Malformed)
    ));
    assert_eq!(s.counter, 0);
}

#[test]
fn subcommand_round_trip_at_largest_length() {
    let data = vec![7u8; 0xfffb];
    let enc = encode_rm4_command(0x02, &data);
    assert_eq!(decode_rm4_response(&enc), data);
}

#[test]
fn subcommand_length_field_truncates_past_largest() {
    // One byte more and the 16-bit length field wraps to zero, so the
    // round trip no longer holds: decoding yields nothing.
    let data = vec![7u8; 0xfffc];
    let enc = encode_rm4_command(0x02, &data);
    assert_eq!(enc[0], 0);
    assert_eq!(enc[1], 0);
    assert_eq!(decode_rm4_response(&enc), Vec::<u8>::new());
}

#[test]
fn default_key_and_iv_match_reference_values() {
    assert_eq!(
        DEFAULT_KEY,
        [0x09, 0x76, 0x28, 0x34, 0x3f, 0xe9, 0x9e, 0x23, 0x76, 0x5c, 0x15, 0x13, 0xac, 0xcf, 0x8b, 0x02]
    );
    assert_eq!(
        DEFAULT_IV,
        [0x56, 0x2e, 0x17, 0x99, 0x6d, 0x09, 0x3d, 0x28, 0xdd, 0xb3, 0xba, 0x69, 0x5a, 0x2e, 0x6f, 0x58]
    );
}
