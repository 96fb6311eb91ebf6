//! The additive 16-bit checksum used by every packet of the protocol.
//!
//! A 16-bit accumulator starts at 0xbeaf and each byte's unsigned value is
//! added with wraparound; the result is stored little-endian in the packet.

use vstd::prelude::*;

verus! {

/// Seed of the rolling checksum.
pub const CHECKSUM_SEED: u16 = 0xbeaf;

/// Plain sum of the byte values of `s`.
pub open spec fn sum_bytes(s: Seq<u8>) -> int
    decreases s.len(),
{
    if s.len() == 0 {
        0
    } else {
        sum_bytes(s.drop_last()) + s.last()
    }
}

/// The checksum of `s`: the seed plus the byte sum, truncated to 16 bits.
pub open spec fn checksum_spec(s: Seq<u8>) -> int {
    (CHECKSUM_SEED + sum_bytes(s)) % 0x10000
}

/// The byte sum of a prefix one longer than `s.take(i)` grows by `s[i]`.
proof fn lemma_sum_bytes_take_step(s: Seq<u8>, i: int)
    requires
        0 <= i < s.len(),
    ensures
        sum_bytes(s.take(i + 1)) == sum_bytes(s.take(i)) + s[i],
{
    assert(s.take(i + 1).drop_last() =~= s.take(i));
    assert(s.take(i + 1).last() == s[i]);
}

/// The byte sum is never negative.
proof fn lemma_sum_bytes_nonneg(s: Seq<u8>)
    ensures
        sum_bytes(s) >= 0,
    decreases s.len(),
{
    if s.len() > 0 {
        lemma_sum_bytes_nonneg(s.drop_last());
    }
}

/// Computes the rolling checksum of `data`, exactly `checksum_spec`.
/// The result always lies in `[0, 0xffff]` because it is a `u16`.
pub fn checksum(data: &[u8]) -> (r: u16)
    ensures
        r == checksum_spec(data@),
{
    let mut acc: u16 = CHECKSUM_SEED;
    let mut i: usize = 0;
    proof {
        assert(data@.take(0) =~= Seq::<u8>::empty());
    }
    while i < data.len()
        invariant
            i <= data@.len(),
            acc == checksum_spec(data@.take(i as int)),
        decreases data@.len() - i,
    {
        proof {
            lemma_sum_bytes_take_step(data@, i as int);
            lemma_sum_bytes_nonneg(data@.take(i as int));
        }
        let sum: u32 = acc as u32 + data[i] as u32;
        assert((sum % 0x10000) == (CHECKSUM_SEED + sum_bytes(data@.take(i + 1))) % 0x10000)
            by (nonlinear_arith)
            requires
                sum == (CHECKSUM_SEED + sum_bytes(data@.take(i as int))) % 0x10000 + data@[i as int],
                sum_bytes(data@.take(i + 1)) == sum_bytes(data@.take(i as int)) + data@[i as int],
                sum_bytes(data@.take(i as int)) >= 0,
                0 <= data@[i as int] < 0x100,
        {}
        acc = (sum % 0x10000) as u16;
        i = i + 1;
    }
    proof {
        assert(data@.take(data@.len() as int) =~= data@);
    }
    acc
}

} // verus!
