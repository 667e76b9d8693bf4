//! Genetic payloads drawn from an outside random seed, the caller and the call's position.
use parity_scale_codec::Encode;
use vstd::prelude::*;

verus! {

broadcast use vstd::array::group_array_axioms;

/// The lowest `n` bytes of `x`, least significant first.
pub open spec fn le_bytes(x: nat, n: nat) -> Seq<u8>
    decreases n,
{
    if n == 0 {
        Seq::empty()
    } else {
        seq![(x % 256) as u8] + le_bytes(x / 256, (n - 1) as nat)
    }
}

/// The encoding of an optional position: a 0 byte, or a 1 byte and four little-endian bytes.
pub open spec fn index_bytes(index: Option<u32>) -> Seq<u8> {
    match index {
        None => seq![0u8],
        Some(i) => seq![1u8] + le_bytes(i as nat, 4),
    }
}

/// The bytes that are hashed into a payload: the seed, the caller, then the position.
pub open spec fn entropy_payload(seed: Seq<u8>, sender: u64, index: Option<u32>) -> Seq<u8> {
    seed + le_bytes(sender as nat, 8) + index_bytes(index)
}

/// The 128-bit BLAKE2b digest of `data`.
pub uninterp spec fn blake2_128_of(data: Seq<u8>) -> Seq<u8>;

/// The payload that `random_value` gives for these inputs, as an array.
pub open spec fn random_payload(seed: [u8; 32], sender: u64, index: Option<u32>) -> [u8; 16] {
    choose|r: [u8; 16]| r@ == blake2_128_of(entropy_payload(seed@, sender, index))
}

/// Relies on parity_scale_codec's `Encode` for a tuple: its parts' encodings in order, where a
/// byte array is its bytes, a `u64` is 8 little-endian bytes, and an `Option` is a 0 byte or a
/// 1 byte followed by the value's encoding.
#[verifier::external_body]
fn encode_payload(seed: &[u8; 32], sender: &u64, index: Option<u32>) -> (r: Vec<u8>)
    ensures
        r@ == entropy_payload(seed@, *sender, index),
{
    (seed, sender, index).encode()
}

/// Relies on sp_io::hashing::blake2_128: the 16-byte BLAKE2b digest, a function of the bytes
/// alone.
#[verifier::external_body]
fn blake2_128(data: &Vec<u8>) -> (r: [u8; 16])
    ensures
        r@ == blake2_128_of(data@),
{
    sp_io::hashing::blake2_128(data)
}

/// A 16-byte payload for `sender`, derived from the outside `seed` and the position of the
/// call within its batch, so that two calls of one batch differ.
pub fn random_value(seed: &[u8; 32], sender: u64, extrinsic_index: Option<u32>) -> (r: [u8; 16])
    ensures
        r@ == blake2_128_of(entropy_payload(seed@, sender, extrinsic_index)),
        r == random_payload(*seed, sender, extrinsic_index),
{
    let payload = encode_payload(seed, &sender, extrinsic_index);
    let r = blake2_128(&payload);
    assert(r =~= random_payload(*seed, sender, extrinsic_index));
    r
}

} // verus!
