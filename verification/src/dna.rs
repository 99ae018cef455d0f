//! Kitty DNA: drawn from the runtime's random seed and block number through
//! SCALE encoding and Blake2-128, and mixed from two parents when breeding.

use parity_scale_codec::Encode;
use sp_core::H256;
use vstd::prelude::*;

use crate::types::{BlockNumber, Gender};

verus! {

/// The 16-byte Blake2b hash (`sp_crypto_hashing::blake2_128`) of a byte string.
pub uninterp spec fn spec_blake2_128(data: Seq<u8>) -> Seq<u8>;

/// The little-endian bytes of a `u64`, its SCALE encoding.
pub open spec fn u64_le_bytes(n: u64) -> Seq<u8> {
    seq![
        (n % 0x100) as u8,
        ((n / 0x100) % 0x100) as u8,
        ((n / 0x1_0000) % 0x100) as u8,
        ((n / 0x100_0000) % 0x100) as u8,
        ((n / 0x1_0000_0000) % 0x100) as u8,
        ((n / 0x100_0000_0000) % 0x100) as u8,
        ((n / 0x1_0000_0000_0000) % 0x100) as u8,
        ((n / 0x100_0000_0000_0000) % 0x100) as u8,
    ]
}

/// The SCALE encoding of the pair (random seed, block number), the seed being
/// itself a pair (hash, block it was drawn at): the 32 bytes of the hash, then
/// the 8 little-endian bytes of each number.
pub open spec fn seed_payload(seed: Seq<u8>, seed_block: BlockNumber, block: BlockNumber) -> Seq<
    u8,
> {
    seed + u64_le_bytes(seed_block) + u64_le_bytes(block)
}

/// The DNA that the random seed `(seed, seed_block)` gives at block `block`.
pub open spec fn dna_of(seed: Seq<u8>, seed_block: BlockNumber, block: BlockNumber) -> Seq<u8> {
    spec_blake2_128(seed_payload(seed, seed_block, block))
}

/// The gender that a random value gives: male when its first byte is even.
pub open spec fn gender_of(random: Seq<u8>) -> Gender {
    if random[0] % 2 == 0 {
        Gender::Male
    } else {
        Gender::Female
    }
}

/// One byte of a child's DNA: the bits of `a` where `g` has a one, those of `b` elsewhere.
pub open spec fn mix_byte(g: u8, a: u8, b: u8) -> u8 {
    (g & a) | (!g & b)
}

/// A child's DNA, mixed from the parents' `a` and `b` under the random DNA `g`.
pub open spec fn dna_mix(g: Seq<u8>, a: Seq<u8>, b: Seq<u8>) -> Seq<u8> {
    Seq::new(16, |i: int| mix_byte(g[i], a[i], b[i]))
}

/// `parity_scale_codec::Encode::encode` of the pair `((H256, u64), u64)`: claimed
/// to be the 32 bytes of the hash followed by the little-endian bytes of each
/// number (a fixed-size hash encodes as its bytes, `u64` as `to_le_bytes`, a
/// tuple as the concatenation of its parts).
#[verifier::external_body]
fn encode_seed_and_block(seed: &[u8; 32], seed_block: BlockNumber, block: BlockNumber) -> (bytes:
    Vec<u8>)
    ensures
        bytes@ == seed_payload(seed@, seed_block, block),
{
    ((H256(*seed), seed_block), block).encode()
}

/// `sp_crypto_hashing::blake2_128`: its result is named `spec_blake2_128`.
#[verifier::external_body]
fn blake2_128(data: &[u8]) -> (hash: [u8; 16])
    ensures
        hash@ == spec_blake2_128(data@),
{
    sp_crypto_hashing::blake2_128(data)
}

/// The DNA drawn from the random seed `(seed, seed_block)` at block `block`:
/// Blake2-128 of the SCALE encoding of `((seed, seed_block), block)`.
pub fn dna_from_seed(seed: &[u8; 32], seed_block: BlockNumber, block: BlockNumber) -> (dna: [u8;
    16])
    ensures
        dna@ == dna_of(seed@, seed_block, block),
{
    let payload = encode_seed_and_block(seed, seed_block, block);
    blake2_128(payload.as_slice())
}

/// The gender drawn from a random value.
pub fn gender_from_random(random: &[u8; 32]) -> (g: Gender)
    ensures
        g == gender_of(random@),
{
    if random[0] % 2 == 0 {
        Gender::Male
    } else {
        Gender::Female
    }
}

/// A child's DNA: each bit from `dna1` where `random` has a one, from `dna2` where it has a zero.
pub fn mix_dna(random: &[u8; 16], dna1: &[u8; 16], dna2: &[u8; 16]) -> (child: [u8; 16])
    ensures
        child@ == dna_mix(random@, dna1@, dna2@),
{
    let mut new_dna = *random;
    let mut i: usize = 0;
    while i < 16
        invariant
            i <= 16,
            forall|j: int| 0 <= j < i ==> new_dna@[j] == mix_byte(random@[j], dna1@[j], dna2@[j]),
            forall|j: int| i <= j < 16 ==> new_dna@[j] == random@[j],
        decreases 16 - i,
    {
        new_dna[i] = (new_dna[i] & dna1[i]) | (!new_dna[i] & dna2[i]);
        i = i + 1;
    }
    assert(new_dna@ =~= dna_mix(random@, dna1@, dna2@));
    new_dna
}

} // verus!
