//! From a recovered public key to the guardian address it stands for.

use crate::crypto::{decompress_point, decompressed_point, keccak256, keccak256_digest};
use crate::state::GuardianAddress;
use vstd::prelude::*;
use vstd::slice::slice_subrange;

verus! {

/// A secp256k1 public key in its compressed SEC1 encoding.
#[derive(Debug, Clone, PartialEq, Eq)]
pub struct PublicKey {
    pub sec1: Vec<u8>,
}

impl View for PublicKey {
    type V = Seq<u8>;

    open spec fn view(&self) -> Seq<u8> {
        self.sec1@
    }
}

/// The address that a digest of a public key stands for: all of it but its
/// first twelve bytes.
pub open spec fn address_of_digest(digest: Seq<u8>) -> Seq<u8> {
    digest.subrange(12, digest.len() as int)
}

/// The address of an uncompressed point: the low 20 bytes of the Keccak-256
/// digest of its coordinates, the format byte left out.
pub open spec fn address_of_point(point: Seq<u8>) -> Seq<u8> {
    address_of_digest(keccak256(point.subrange(1, point.len() as int)))
}

/// The key denotes a point of the curve whose address is `address`.
pub open spec fn key_matches(key: Seq<u8>, address: Seq<u8>) -> bool {
    match decompressed_point(key) {
        Some(point) => point.len() >= 1 && address_of_point(point) == address,
        None => false,
    }
}

/// Whether two byte strings hold the same bytes.
pub fn bytes_equal(a: &[u8], b: &[u8]) -> (equal: bool)
    ensures
        equal == (a@ == b@),
{
    if a.len() != b.len() {
        return false;
    }
    let mut i: usize = 0;
    while i < a.len()
        invariant
            i <= a@.len(),
            a@.len() == b@.len(),
            a@.subrange(0, i as int) == b@.subrange(0, i as int),
        decreases a@.len() - i,
    {
        if a[i] != b[i] {
            return false;
        }
        assert(a@.subrange(0, i + 1) =~= a@.subrange(0, i as int).push(a@[i as int]));
        assert(b@.subrange(0, i + 1) =~= b@.subrange(0, i as int).push(b@[i as int]));
        i += 1;
    }
    assert(a@ =~= a@.subrange(0, i as int));
    assert(b@ =~= b@.subrange(0, i as int));
    true
}

/// Whether a digest of a public key stands for the guardian address `b`.
pub fn digest_matches(digest: &[u8], b: &GuardianAddress) -> (equal: bool)
    ensures
        equal == (digest@.len() >= 12 && address_of_digest(digest@) == b@),
{
    if digest.len() < 12 {
        return false;
    }
    let a = slice_subrange(digest, 12, digest.len());
    bytes_equal(a, b.bytes.as_slice())
}

/// Whether the public key `a` belongs to the guardian address `b`.
pub fn keys_equal(a: &PublicKey, b: &GuardianAddress) -> (equal: bool)
    ensures
        equal == key_matches(a@, b@),
{
    let point = match decompress_point(a.sec1.as_slice()) {
        Some(point) => point,
        None => {
            return false;
        },
    };
    if point.len() < 1 {
        return false;
    }
    let digest = keccak256_digest(slice_subrange(point.as_slice(), 1, point.len()));
    digest_matches(digest.as_slice(), b)
}

} // verus!
