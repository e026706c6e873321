//! Random numbers.

use bitcoin::secp256k1::rand::{thread_rng, Rng, RngCore};
use vstd::prelude::*;

verus! {

/// Calls `next_u64` on the generator of `rand` that `secp256k1` hands on. Nothing is claimed of
/// the number.
#[verifier::external_body]
pub(crate) fn random_number() -> (n: u64) {
    thread_rng().next_u64()
}

/// Calls `gen_range` on the generator of `rand` that `secp256k1` hands on. Claimed of it: the
/// number is not below the lower bound and below the upper one.
#[verifier::external_body]
pub(crate) fn random_size(low: u16, high: u16) -> (n: u16)
    requires
        low < high,
    ensures
        low <= n < high,
{
    thread_rng().gen_range(low, high)
}

/// Calls `gen` for a byte on the generator of `rand` that `secp256k1` hands on. Nothing is
/// claimed of the byte.
#[verifier::external_body]
fn random_byte() -> (b: u8) {
    thread_rng().gen()
}

/// Random bytes.
pub fn noise(len: u16) -> (v: Vec<u8>)
    ensures
        v@.len() == len,
{
    let mut v: Vec<u8> = Vec::new();
    let mut i: u16 = 0;
    while i < len
        invariant
            i <= len,
            v@.len() == i,
        decreases len - i,
    {
        v.push(random_byte());
        i += 1;
    }
    v
}

} // verus!
