use vstd::prelude::*;

verus! {

/// The 128-bit digest that payload derivation hashes through. The digest of
/// a byte sequence is a fixed function of that sequence alone.
pub uninterp spec fn blake2_128_digest(data: Seq<u8>) -> Seq<u8>;

/// Relies on sp_io::hashing::blake2_128: the 16-byte Blake2b digest of
/// `data`, a pure function of the input bytes alone.
#[verifier::external_body]
fn blake2_128(data: &[u8]) -> (r: [u8; 16])
    ensures
        r@ == blake2_128_digest(data@),
{
    sp_io::hashing::blake2_128(data)
}

/// The little-endian byte encoding of a caller identity.
pub open spec fn spec_u64_le(x: u64) -> Seq<u8> {
    seq![
        (x & 0xff) as u8,
        ((x >> 8) & 0xff) as u8,
        ((x >> 16) & 0xff) as u8,
        ((x >> 24) & 0xff) as u8,
        ((x >> 32) & 0xff) as u8,
        ((x >> 40) & 0xff) as u8,
        ((x >> 48) & 0xff) as u8,
        ((x >> 56) & 0xff) as u8,
    ]
}

/// The little-endian byte encoding of a context index value.
pub open spec fn spec_u32_le(x: u32) -> Seq<u8> {
    seq![
        (x & 0xff) as u8,
        ((x >> 8) & 0xff) as u8,
        ((x >> 16) & 0xff) as u8,
        ((x >> 24) & 0xff) as u8,
    ]
}

/// The byte encoding of the optional per-call context index: a zero tag for
/// absence, or a one tag followed by the value's little-endian bytes.
pub open spec fn spec_index_encoding(extrinsic_index: Option<u32>) -> Seq<u8> {
    match extrinsic_index {
        Option::None => seq![0u8],
        Option::Some(v) => seq![1u8] + spec_u32_le(v),
    }
}

/// The byte string hashed to derive a payload: the oracle's randomness seed,
/// then the caller identity, then the encoded context index.
pub open spec fn spec_random_input(seed: Seq<u8>, sender: u64, extrinsic_index: Option<u32>) -> Seq<u8> {
    seed + spec_u64_le(sender) + spec_index_encoding(extrinsic_index)
}

/// The payload derived for one call: the 128-bit digest of the encoded
/// (seed, caller, context) tuple.
pub open spec fn spec_random_value(seed: Seq<u8>, sender: u64, extrinsic_index: Option<u32>) -> Seq<u8> {
    blake2_128_digest(spec_random_input(seed, sender, extrinsic_index))
}

proof fn lemma_mask_fits_u64(x: u64)
    ensures
        x & 0xff <= 0xff,
{
    assert(x & 0xff <= 0xff) by (bit_vector);
}

proof fn lemma_mask_fits_u32(x: u32)
    ensures
        x & 0xff <= 0xff,
{
    assert(x & 0xff <= 0xff) by (bit_vector);
}

fn push_u64_le(buf: &mut Vec<u8>, x: u64)
    ensures
        final(buf)@ == old(buf)@ + spec_u64_le(x),
{
    proof {
        lemma_mask_fits_u64(x);
        lemma_mask_fits_u64(x >> 8);
        lemma_mask_fits_u64(x >> 16);
        lemma_mask_fits_u64(x >> 24);
        lemma_mask_fits_u64(x >> 32);
        lemma_mask_fits_u64(x >> 40);
        lemma_mask_fits_u64(x >> 48);
        lemma_mask_fits_u64(x >> 56);
    }
    buf.push((x & 0xff) as u8);
    buf.push(((x >> 8) & 0xff) as u8);
    buf.push(((x >> 16) & 0xff) as u8);
    buf.push(((x >> 24) & 0xff) as u8);
    buf.push(((x >> 32) & 0xff) as u8);
    buf.push(((x >> 40) & 0xff) as u8);
    buf.push(((x >> 48) & 0xff) as u8);
    buf.push(((x >> 56) & 0xff) as u8);
    proof {
        assert(buf@ =~= old(buf)@ + spec_u64_le(x));
    }
}

fn push_u32_le(buf: &mut Vec<u8>, x: u32)
    ensures
        final(buf)@ == old(buf)@ + spec_u32_le(x),
{
    proof {
        lemma_mask_fits_u32(x);
        lemma_mask_fits_u32(x >> 8);
        lemma_mask_fits_u32(x >> 16);
        lemma_mask_fits_u32(x >> 24);
    }
    buf.push((x & 0xff) as u8);
    buf.push(((x >> 8) & 0xff) as u8);
    buf.push(((x >> 16) & 0xff) as u8);
    buf.push(((x >> 24) & 0xff) as u8);
    proof {
        assert(buf@ =~= old(buf)@ + spec_u32_le(x));
    }
}

/// Derive a 16-byte pseudo-random payload for one call: hash the randomness
/// seed supplied by the external oracle, the caller's identity and the
/// per-call context index through the 128-bit digest. Calls that differ in
/// any component hash a different byte string.
pub fn random_value(sender: u64, seed: &[u8; 32], extrinsic_index: Option<u32>) -> (r: [u8; 16])
    ensures
        r@ == spec_random_value(seed@, sender, extrinsic_index),
{
    let mut buf: Vec<u8> = Vec::new();
    let mut i: usize = 0;
    while i < 32
        invariant
            i <= 32,
            buf@ == seed@.subrange(0, i as int),
        decreases 32 - i,
    {
        buf.push(seed[i]);
        proof {
            assert(buf@ =~= seed@.subrange(0, i + 1));
        }
        i = i + 1;
    }
    proof {
        assert(buf@ =~= seed@);
    }
    push_u64_le(&mut buf, sender);
    match extrinsic_index {
        Option::None => {
            buf.push(0u8);
        },
        Option::Some(v) => {
            buf.push(1u8);
            push_u32_le(&mut buf, v);
        },
    }
    proof {
        assert(buf@ =~= spec_random_input(seed@, sender, extrinsic_index));
    }
    blake2_128(buf.as_slice())
}

} // verus!
