//! AES-128-CBC payload encryption with zero padding.
//!
//! Every request restarts its CBC chain from the session's fixed IV. The
//! block cipher itself comes from the `aes` crate; this module verifies the
//! padding and the chaining around it, so that decrypting what `encrypt`
//! produced provably returns the zero-padded plaintext.

use vstd::prelude::*;
use crate::error::ProtoError;
use aes::Aes128;
use cipher::{BlockDecrypt, BlockEncrypt, KeyInit};
use cipher::generic_array::GenericArray;

verus! {

/// What `aes::Aes128` makes of one 16-byte block under `key`.
pub uninterp spec fn aes128_encrypt_spec(key: Seq<u8>, block: Seq<u8>) -> Seq<u8>;

/// The inverse permutation of `aes128_encrypt_spec` for the same key.
pub uninterp spec fn aes128_decrypt_spec(key: Seq<u8>, block: Seq<u8>) -> Seq<u8>;

/// Relies on `aes::Aes128` (through `cipher::BlockEncrypt`): encrypts one
/// 16-byte block in place under an AES-128 key; `cipher::BlockDecrypt` with
/// the same key inverts it, as AES is a keyed permutation.
#[verifier::external_body]
fn aes128_encrypt_block(key: &[u8; 16], block: &Vec<u8>) -> (r: Vec<u8>)
    requires
        block@.len() == 16,
    ensures
        r@.len() == 16,
        r@ == aes128_encrypt_spec(key@, block@),
        aes128_decrypt_spec(key@, r@) == block@,
{
    let cipher = Aes128::new(GenericArray::from_slice(key));
    let mut b = GenericArray::clone_from_slice(block.as_slice());
    cipher.encrypt_block(&mut b);
    b.to_vec()
}

/// Relies on `aes::Aes128` (through `cipher::BlockDecrypt`): decrypts one
/// 16-byte block in place under an AES-128 key; `cipher::BlockEncrypt` with
/// the same key inverts it, as AES is a keyed permutation.
#[verifier::external_body]
fn aes128_decrypt_block(key: &[u8; 16], block: &Vec<u8>) -> (r: Vec<u8>)
    requires
        block@.len() == 16,
    ensures
        r@.len() == 16,
        r@ == aes128_decrypt_spec(key@, block@),
        aes128_encrypt_spec(key@, r@) == block@,
{
    let cipher = Aes128::new(GenericArray::from_slice(key));
    let mut b = GenericArray::clone_from_slice(block.as_slice());
    cipher.decrypt_block(&mut b);
    b.to_vec()
}

/// Length of `n` bytes zero-padded up to the next 16-byte boundary.
pub open spec fn padded_len_spec(n: int) -> int {
    ((n + 15) / 16) * 16
}

/// `s` zero-padded up to the next 16-byte boundary.
pub open spec fn pad16(s: Seq<u8>) -> Seq<u8> {
    s + Seq::new((padded_len_spec(s.len() as int) - s.len()) as nat, |i| 0u8)
}

proof fn lemma_padded_len(n: int)
    requires
        n >= 0,
    ensures
        padded_len_spec(n) % 16 == 0,
        n <= padded_len_spec(n) < n + 16,
{
    let q = (n + 15) / 16;
    vstd::arithmetic::div_mod::lemma_fundamental_div_mod(n + 15, 16);
    vstd::arithmetic::div_mod::lemma_mod_multiples_basic(q, 16);
    assert(q * 16 == 16 * q) by (nonlinear_arith);
}

/// Pointwise XOR of two equal-length byte strings.
pub open spec fn xor_block(a: Seq<u8>, b: Seq<u8>) -> Seq<u8> {
    Seq::new(a.len(), |i| a[i] ^ b[i])
}

proof fn lemma_xor_cancel_byte(a: u8, b: u8)
    ensures
        (a ^ b) ^ b == a,
{
    assert((a ^ b) ^ b == a) by (bit_vector);
}

proof fn lemma_xor_block_cancel(a: Seq<u8>, b: Seq<u8>)
    requires
        a.len() == b.len(),
    ensures
        xor_block(xor_block(a, b), b) == a,
{
    assert forall|i: int| 0 <= i < a.len() implies xor_block(xor_block(a, b), b)[i] == a[i] by {
        lemma_xor_cancel_byte(a[i], b[i]);
    }
    assert(xor_block(xor_block(a, b), b) =~= a);
}

/// CBC encryption of `data` (a whole number of blocks) under `key`, with
/// `chain` as the running feedback value: each block is XORed with the chain
/// and encrypted, and the ciphertext block becomes the next chain value.
pub open spec fn cbc_encrypt_spec(key: Seq<u8>, chain: Seq<u8>, data: Seq<u8>) -> Seq<u8>
    decreases data.len(),
{
    if data.len() < 16 {
        Seq::empty()
    } else {
        let c = aes128_encrypt_spec(key, xor_block(data.take(16), chain));
        c + cbc_encrypt_spec(key, c, data.skip(16))
    }
}

/// CBC decryption of `data` (a whole number of blocks) under `key`: each
/// ciphertext block is decrypted and XORed with the chain, and the
/// ciphertext block itself (not the plaintext) becomes the next chain value.
pub open spec fn cbc_decrypt_spec(key: Seq<u8>, chain: Seq<u8>, data: Seq<u8>) -> Seq<u8>
    decreases data.len(),
{
    if data.len() < 16 {
        Seq::empty()
    } else {
        xor_block(aes128_decrypt_spec(key, data.take(16)), chain)
            + cbc_decrypt_spec(key, data.take(16), data.skip(16))
    }
}

/// The chain value after CBC-encrypting `data`: the last ciphertext block,
/// or `chain` itself when `data` is empty.
pub open spec fn cbc_encrypt_chain(key: Seq<u8>, chain: Seq<u8>, data: Seq<u8>) -> Seq<u8>
    decreases data.len(),
{
    if data.len() < 16 {
        chain
    } else {
        cbc_encrypt_chain(
            key,
            aes128_encrypt_spec(key, xor_block(data.take(16), chain)),
            data.skip(16),
        )
    }
}

/// The chain value a CBC decryption holds after consuming `data`: the last
/// ciphertext block, or `chain` when `data` is empty.
pub open spec fn last_block(chain: Seq<u8>, data: Seq<u8>) -> Seq<u8> {
    if data.len() == 0 {
        chain
    } else {
        data.subrange(data.len() - 16, data.len() as int)
    }
}

/// Appending one plaintext block extends the CBC ciphertext by one block,
/// encrypted against the chain value reached after the earlier blocks.
proof fn lemma_cbc_encrypt_snoc(key: Seq<u8>, chain: Seq<u8>, data: Seq<u8>, block: Seq<u8>)
    requires
        data.len() % 16 == 0,
        block.len() == 16,
    ensures
        cbc_encrypt_spec(key, chain, data + block) == cbc_encrypt_spec(key, chain, data)
            + aes128_encrypt_spec(key, xor_block(block, cbc_encrypt_chain(key, chain, data))),
        cbc_encrypt_chain(key, chain, data + block) == aes128_encrypt_spec(
            key,
            xor_block(block, cbc_encrypt_chain(key, chain, data)),
        ),
    decreases data.len(),
{
    if data.len() == 0 {
        assert(data + block =~= block);
        assert(block.take(16) =~= block);
        assert(block.skip(16) =~= Seq::<u8>::empty());
        let c = aes128_encrypt_spec(key, xor_block(block, chain));
        assert(cbc_encrypt_spec(key, chain, block) =~= c + cbc_encrypt_spec(key, c, block.skip(16)));
        assert(cbc_encrypt_spec(key, c, block.skip(16)) =~= Seq::<u8>::empty());
        assert(cbc_encrypt_spec(key, chain, data + block) =~= cbc_encrypt_spec(key, chain, data)
            + c);
        assert(cbc_encrypt_chain(key, chain, data) == chain);
        assert(cbc_encrypt_chain(key, chain, block) == cbc_encrypt_chain(key, c, block.skip(16)));
        assert(cbc_encrypt_chain(key, c, block.skip(16)) == c);
    } else {
        let c = aes128_encrypt_spec(key, xor_block(data.take(16), chain));
        assert((data + block).take(16) =~= data.take(16));
        assert((data + block).skip(16) =~= data.skip(16) + block);
        lemma_cbc_encrypt_snoc(key, c, data.skip(16), block);
        assert(cbc_encrypt_chain(key, chain, data) == cbc_encrypt_chain(key, c, data.skip(16)));
        assert(cbc_encrypt_chain(key, chain, data + block) == cbc_encrypt_chain(
            key,
            c,
            data.skip(16) + block,
        ));
        assert(cbc_encrypt_spec(key, chain, data + block) =~= cbc_encrypt_spec(key, chain, data)
            + aes128_encrypt_spec(key, xor_block(block, cbc_encrypt_chain(key, chain, data))));
    }
}

/// Appending one ciphertext block extends the CBC plaintext by one block,
/// XORed against the previous ciphertext block (or the IV).
proof fn lemma_cbc_decrypt_snoc(key: Seq<u8>, chain: Seq<u8>, data: Seq<u8>, block: Seq<u8>)
    requires
        data.len() % 16 == 0,
        block.len() == 16,
    ensures
        cbc_decrypt_spec(key, chain, data + block) == cbc_decrypt_spec(key, chain, data)
            + xor_block(aes128_decrypt_spec(key, block), last_block(chain, data)),
    decreases data.len(),
{
    if data.len() == 0 {
        assert(data + block =~= block);
        assert(block.take(16) =~= block);
        assert(block.skip(16) =~= Seq::<u8>::empty());
        assert(last_block(chain, data) =~= chain);
        assert(cbc_decrypt_spec(key, chain, block) == xor_block(
            aes128_decrypt_spec(key, block.take(16)),
            chain,
        ) + cbc_decrypt_spec(key, block.take(16), block.skip(16)));
        assert(cbc_decrypt_spec(key, block.take(16), block.skip(16)) == Seq::<u8>::empty());
        assert(cbc_decrypt_spec(key, chain, data) == Seq::<u8>::empty());
        assert(cbc_decrypt_spec(key, chain, data + block) =~= cbc_decrypt_spec(key, chain, data)
            + xor_block(aes128_decrypt_spec(key, block), chain));
    } else {
        assert((data + block).take(16) =~= data.take(16));
        assert((data + block).skip(16) =~= data.skip(16) + block);
        lemma_cbc_decrypt_snoc(key, data.take(16), data.skip(16), block);
        assert(last_block(data.take(16), data.skip(16)) =~= last_block(chain, data));
        assert(cbc_decrypt_spec(key, chain, data + block) =~= cbc_decrypt_spec(key, chain, data)
            + xor_block(aes128_decrypt_spec(key, block), last_block(chain, data)));
    }
}

/// Copies the 16-byte block of `data` that starts at `off`.
fn copy_block(data: &Vec<u8>, off: usize) -> (r: Vec<u8>)
    requires
        off + 16 <= data@.len(),
    ensures
        r@ == data@.subrange(off as int, off as int + 16),
{
    let n = data.len();
    let mut r: Vec<u8> = Vec::new();
    let mut j: usize = 0;
    while j < 16
        invariant
            j <= 16,
            off + 16 <= n,
            n == data@.len(),
            r@ == data@.subrange(off as int, off as int + j as int),
        decreases 16 - j,
    {
        r.push(data[off + j]);
        proof {
            assert(data@.subrange(off as int, off as int + j as int).push(
                data@[off as int + j as int],
            ) =~= data@.subrange(off as int, off as int + j + 1));
        }
        j = j + 1;
    }
    r
}

/// Pointwise XOR of two equal-length byte vectors.
fn xor_bytes(a: &Vec<u8>, b: &Vec<u8>) -> (r: Vec<u8>)
    requires
        a@.len() == b@.len(),
    ensures
        r@ == xor_block(a@, b@),
{
    let mut r: Vec<u8> = Vec::new();
    let mut j: usize = 0;
    while j < a.len()
        invariant
            j <= a@.len(),
            a@.len() == b@.len(),
            r@.len() == j,
            forall|i: int| 0 <= i < j ==> r@[i] == (a@[i] ^ b@[i]),
        decreases a@.len() - j,
    {
        r.push(a[j] ^ b[j]);
        j = j + 1;
    }
    proof {
        assert(r@ =~= xor_block(a@, b@));
    }
    r
}

/// Encrypts `data` under `key`: the plaintext is zero-padded to the next
/// 16-byte boundary and CBC-encrypted with `iv` as the initial chain value.
/// Never fails, and what it returns decrypts back to the padded plaintext.
pub fn encrypt(key: &[u8; 16], iv: &[u8; 16], data: &[u8]) -> (r: Vec<u8>)
    requires
        data@.len() <= usize::MAX - 15,
    ensures
        r@ == cbc_encrypt_spec(key@, iv@, pad16(data@)),
        cbc_decrypt_spec(key@, iv@, r@) == pad16(data@),
        r@.len() == pad16(data@).len(),
        r@.len() % 16 == 0,
{
    proof {
        lemma_padded_len(data@.len() as int);
    }
    let padded_len: usize = ((data.len() + 15) / 16) * 16;
    let mut padded: Vec<u8> = vstd::slice::slice_to_vec(data);
    while padded.len() < padded_len
        invariant
            data@.len() <= padded@.len() <= padded_len,
            padded_len == padded_len_spec(data@.len() as int),
            padded@ == pad16(data@).take(padded@.len() as int),
        decreases padded_len - padded@.len(),
    {
        proof {
            assert(pad16(data@).take(padded@.len() as int).push(0u8) =~= pad16(data@).take(
                padded@.len() as int + 1,
            ));
        }
        padded.push(0u8);
    }
    proof {
        assert(pad16(data@).take(padded@.len() as int) =~= pad16(data@));
    }
    let iv_vec: Vec<u8> = vstd::slice::slice_to_vec(iv.as_slice());
    let mut chain: Vec<u8> = iv_vec;
    let mut out: Vec<u8> = Vec::new();
    let mut off: usize = 0;
    while off < padded.len()
        invariant
            padded@ == pad16(data@),
            padded@.len() % 16 == 0,
            off % 16 == 0,
            off <= padded@.len(),
            out@.len() == off,
            out@ == cbc_encrypt_spec(key@, iv@, padded@.take(off as int)),
            cbc_decrypt_spec(key@, iv@, out@) == padded@.take(off as int),
            chain@ == cbc_encrypt_chain(key@, iv@, padded@.take(off as int)),
            chain@ == last_block(iv@, out@),
            chain@.len() == 16,
        decreases padded@.len() - off,
    {
        let block = copy_block(&padded, off);
        let x = xor_bytes(&block, &chain);
        let c = aes128_encrypt_block(key, &x);
        proof {
            let pre = padded@.take(off as int);
            let blk = padded@.subrange(off as int, off as int + 16);
            assert(pre + blk =~= padded@.take(off as int + 16));
            lemma_cbc_encrypt_snoc(key@, iv@, pre, blk);
            assert(x@ == xor_block(blk, chain@));
            assert(c@ == aes128_encrypt_spec(key@, xor_block(blk, cbc_encrypt_chain(key@, iv@, pre))));
            assert(out@ + c@ =~= cbc_encrypt_spec(key@, iv@, padded@.take(off as int + 16)));
            lemma_cbc_decrypt_snoc(key@, iv@, out@, c@);
            lemma_xor_block_cancel(blk, chain@);
            assert(aes128_decrypt_spec(key@, c@) == x@);
            assert(xor_block(aes128_decrypt_spec(key@, c@), last_block(iv@, out@)) =~= blk);
            assert(cbc_decrypt_spec(key@, iv@, out@ + c@) =~= padded@.take(off as int + 16));
        }
        let mut k: usize = 0;
        let ghost out_before = out@;
        while k < c.len()
            invariant
                k <= c@.len(),
                c@.len() == 16,
                out@ == out_before + c@.take(k as int),
            decreases c@.len() - k,
        {
            proof {
                assert(out_before + c@.take(k as int).push(c@[k as int]) =~= out_before + c@.take(
                    k + 1,
                ));
            }
            out.push(c[k]);
            k = k + 1;
        }
        proof {
            assert(out_before + c@.take(c@.len() as int) =~= out_before + c@);
            assert((out_before + c@).subrange(out_before.len() as int, out_before.len() as int + 16) =~= c@);
        }
        chain = c;
        off = off + 16;
    }
    proof {
        assert(padded@.take(padded@.len() as int) =~= padded@);
    }
    out
}

/// Decrypts `data` under `key` with `iv` as the initial chain value. Fails
/// exactly when the length is not a whole number of blocks; the result is
/// still zero-padded, so callers take the true length from context.
pub fn decrypt(key: &[u8; 16], iv: &[u8; 16], data: &[u8]) -> (r: Result<Vec<u8>, ProtoError>)
    ensures
        r is Ok <==> data@.len() % 16 == 0,
        r matches Ok(v) ==> v@ == cbc_decrypt_spec(key@, iv@, data@),
        r matches Err(e) ==> e matches ProtoError::Malformed,
{
    if data.len() % 16 != 0 {
        return Err(ProtoError::Malformed);
    }
    let data_vec: Vec<u8> = vstd::slice::slice_to_vec(data);
    let iv_vec: Vec<u8> = vstd::slice::slice_to_vec(iv.as_slice());
    let mut chain: Vec<u8> = iv_vec;
    let mut out: Vec<u8> = Vec::new();
    let mut off: usize = 0;
    while off < data_vec.len()
        invariant
            data_vec@ == data@,
            data@.len() % 16 == 0,
            off % 16 == 0,
            off <= data@.len(),
            out@.len() == off,
            out@ == cbc_decrypt_spec(key@, iv@, data@.take(off as int)),
            chain@ == last_block(iv@, data@.take(off as int)),
            chain@.len() == 16,
        decreases data@.len() - off,
    {
        let block = copy_block(&data_vec, off);
        let d = aes128_decrypt_block(key, &block);
        let p = xor_bytes(&d, &chain);
        proof {
            let pre = data@.take(off as int);
            let blk = data@.subrange(off as int, off as int + 16);
            assert(pre + blk =~= data@.take(off as int + 16));
            lemma_cbc_decrypt_snoc(key@, iv@, pre, blk);
            assert(p@ == xor_block(aes128_decrypt_spec(key@, blk), last_block(iv@, pre)));
            assert(out@ + p@ =~= cbc_decrypt_spec(key@, iv@, data@.take(off as int + 16)));
            assert(last_block(iv@, data@.take(off as int + 16)) =~= blk);
        }
        let mut k: usize = 0;
        let ghost out_before = out@;
        while k < p.len()
            invariant
                k <= p@.len(),
                p@.len() == 16,
                out@ == out_before + p@.take(k as int),
            decreases p@.len() - k,
        {
            proof {
                assert(out_before + p@.take(k as int).push(p@[k as int]) =~= out_before + p@.take(
                    k + 1,
                ));
            }
            out.push(p[k]);
            k = k + 1;
        }
        proof {
            assert(out_before + p@.take(p@.len() as int) =~= out_before + p@);
        }
        chain = block;
        off = off + 16;
    }
    proof {
        assert(data@.take(data@.len() as int) =~= data@);
    }
    Ok(out)
}

} // verus!
