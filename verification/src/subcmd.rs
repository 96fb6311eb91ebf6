//! Length-prefixed sub-command codec.
//!
//! One device generation nests a second command layer inside the encrypted
//! payload: a 2-byte little-endian length (the data length plus 4), a 4-byte
//! little-endian command word, then the data bytes. Responses carry the same
//! prefix, which decoding strips.

use vstd::prelude::*;

verus! {

/// Largest data length whose 2-byte length prefix does not truncate.
pub const MAX_SUBCOMMAND_DATA_LEN: usize = 0xfffb;

/// The encoded sub-command: length prefix, command word, data.
pub open spec fn encode_subcommand_spec(command: u32, data: Seq<u8>) -> Seq<u8> {
    let len16 = (data.len() + 4) % 0x10000;
    let c = command as int;
    seq![
        (len16 % 0x100) as u8,
        (len16 / 0x100) as u8,
        (c % 0x100) as u8,
        ((c / 0x100) % 0x100) as u8,
        ((c / 0x10000) % 0x100) as u8,
        ((c / 0x1000000) % 0x100) as u8,
    ] + data
}

/// What decoding yields: empty for payloads under 6 bytes, otherwise the
/// bytes between the 6-byte prefix and the end named by the length field.
pub open spec fn decode_subcommand_spec(payload: Seq<u8>) -> Seq<u8> {
    if payload.len() < 6 {
        Seq::empty()
    } else {
        let n = payload[0] + 0x100 * payload[1];
        let end = if n + 2 <= payload.len() { n + 2 } else { payload.len() as int };
        if end > 6 {
            payload.subrange(6, end)
        } else {
            Seq::empty()
        }
    }
}

/// Encodes a sub-command: 2-byte little-endian length (`data.len() + 4`,
/// truncated to 16 bits), 4-byte little-endian command, then the data.
pub fn encode_rm4_command(command: u32, data: &[u8]) -> (r: Vec<u8>)
    ensures
        r@ == encode_subcommand_spec(command, data@),
        r@.len() == 6 + data@.len(),
{
    proof {
        vstd::arithmetic::div_mod::lemma_add_mod_noop(data@.len() as int, 4, 0x10000);
    }
    let length: usize = (data.len() % 0x10000 + 4) % 0x10000;
    assert(length == (data@.len() + 4) % 0x10000);
    let mut packet: Vec<u8> = Vec::new();
    packet.push((length % 0x100) as u8);
    packet.push((length / 0x100) as u8);
    packet.push((command % 0x100) as u8);
    packet.push(((command / 0x100) % 0x100) as u8);
    packet.push(((command / 0x10000) % 0x100) as u8);
    packet.push(((command / 0x1000000) % 0x100) as u8);
    let mut i: usize = 0;
    while i < data.len()
        invariant
            i <= data@.len(),
            packet@ == encode_subcommand_spec(command, data@).take(6 + i as int),
        decreases data@.len() - i,
    {
        packet.push(data[i]);
        proof {
            assert(encode_subcommand_spec(command, data@).take(6 + i as int).push(data@[i as int])
                =~= encode_subcommand_spec(command, data@).take(6 + i + 1));
        }
        i = i + 1;
    }
    proof {
        assert(encode_subcommand_spec(command, data@).take(6 + data@.len() as int)
            =~= encode_subcommand_spec(command, data@));
    }
    packet
}

/// Decodes a sub-command response. A payload under 6 bytes yields an empty
/// result (never a fault); otherwise the 6-byte length-and-command prefix is
/// stripped and the length field bounds the data.
pub fn decode_rm4_response(payload: &[u8]) -> (r: Vec<u8>)
    ensures
        r@ == decode_subcommand_spec(payload@),
        payload@.len() < 6 ==> r@ == Seq::<u8>::empty(),
{
    if payload.len() < 6 {
        return Vec::new();
    }
    let p_len: usize = payload[0] as usize + 0x100 * payload[1] as usize;
    let end: usize = if p_len + 2 <= payload.len() { p_len + 2 } else { payload.len() };
    if end > 6 {
        let part = vstd::slice::slice_subrange(payload, 6, end);
        vstd::slice::slice_to_vec(part)
    } else {
        Vec::new()
    }
}

/// Round trip: decoding an encoded sub-command returns the data unchanged,
/// for every command and for all data short enough that the length prefix
/// does not truncate.
pub proof fn lemma_subcommand_round_trip(command: u32, data: Seq<u8>)
    requires
        data.len() <= MAX_SUBCOMMAND_DATA_LEN,
    ensures
        decode_subcommand_spec(encode_subcommand_spec(command, data)) == data,
{
    let enc = encode_subcommand_spec(command, data);
    assert(enc[0] + 0x100 * enc[1] == data.len() + 4) by {
        assert(enc[0] == (data.len() + 4) % 0x100);
        assert(enc[1] == ((data.len() + 4) % 0x10000) / 0x100);
    }
    if data.len() > 0 {
        assert(enc.subrange(6, data.len() + 6 as int) =~= data);
    }
    assert(decode_subcommand_spec(enc) =~= data);
}

} // verus!
