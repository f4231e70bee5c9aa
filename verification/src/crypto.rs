//! The cryptographic primitives, which come from outside crates.
//!
//! Nothing in this file is proved: each function states what the crate it
//! calls computes, and the rest of the library is verified against these
//! statements.

use crate::byte_utils::be_value;
use k256::ecdsa::{RecoveryId, Signature, VerifyingKey};
use k256::elliptic_curve::sec1::{FromEncodedPoint, ToEncodedPoint};
use k256::{AffinePoint, EncodedPoint};
use sha3::{Digest, Keccak256};
use vstd::prelude::*;

verus! {

/// The Keccak-256 digest of a byte string.
pub uninterp spec fn keccak256(data: Seq<u8>) -> Seq<u8>;

/// The key that secp256k1 public-key recovery yields for a message digest, a
/// signature (r, then s: 64 bytes) and a recovery id, as the compressed SEC1
/// encoding of the point; `None` where recovery fails.
pub uninterp spec fn recovered_key(prehash: Seq<u8>, signature: Seq<u8>, recovery_id: u8) -> Option<
    Seq<u8>,
>;

/// The uncompressed SEC1 encoding of the secp256k1 point that a SEC1 encoding
/// denotes; `None` where it denotes no point of the curve.
pub uninterp spec fn decompressed_point(sec1: Seq<u8>) -> Option<Seq<u8>>;

/// The order of the secp256k1 group.
pub open spec fn secp256k1_order() -> nat {
    0xFFFFFFFFFFFFFFFFFFFFFFFFFFFFFFFEBAAEDCE6AF48A03BBFD25E8CD0364141nat
}

/// A signature decodes when it has 64 bytes and both of its halves, read as
/// big-endian numbers, lie strictly between zero and the group order.
pub open spec fn signature_decodes(signature: Seq<u8>) -> bool {
    &&& signature.len() == 64
    &&& 0 < be_value(signature.subrange(0, 32)) < secp256k1_order()
    &&& 0 < be_value(signature.subrange(32, 64)) < secp256k1_order()
}

/// Calls `sha3::Keccak256::digest`. Claimed: the result is the Keccak-256
/// digest of `data`, which has 32 bytes.
#[verifier::external_body]
pub(crate) fn keccak256_digest(data: &[u8]) -> (digest: Vec<u8>)
    ensures
        digest@ == keccak256(data@),
        digest@.len() == 32,
{
    Keccak256::digest(data).to_vec()
}

/// Calls `k256::ecdsa::Signature::try_from` on a byte slice. Claimed: it
/// succeeds exactly on 64 bytes whose halves r and s are both in the range
/// from 1 to the group order, exclusive.
#[verifier::external_body]
pub(crate) fn signature_is_well_formed(signature: &[u8]) -> (ok: bool)
    ensures
        ok == signature_decodes(signature@),
{
    Signature::try_from(signature).is_ok()
}

/// Calls `k256::ecdsa::RecoveryId::try_from` on a byte. Claimed: it succeeds
/// exactly on the values 0 to 3.
#[verifier::external_body]
pub(crate) fn recovery_id_is_valid(recovery_id: u8) -> (ok: bool)
    ensures
        ok == (recovery_id <= 3),
{
    RecoveryId::try_from(recovery_id).is_ok()
}

/// Calls `k256::ecdsa::VerifyingKey::recover_from_prehash` and hands the key
/// out in its compressed SEC1 encoding. Claimed: the outcome is a function of
/// the three arguments alone.
#[verifier::external_body]
pub(crate) fn recover_key(prehash: &[u8], signature: &[u8], recovery_id: u8) -> (key: Option<
    Vec<u8>,
>)
    requires
        signature_decodes(signature@),
        recovery_id <= 3,
    ensures
        match key {
            Some(k) => recovered_key(prehash@, signature@, recovery_id) == Some(k@),
            None => recovered_key(prehash@, signature@, recovery_id) is None,
        },
{
    let signature = Signature::try_from(signature).ok()?;
    let recovery_id = RecoveryId::try_from(recovery_id).ok()?;
    let key = VerifyingKey::recover_from_prehash(prehash, &signature, recovery_id).ok()?;
    Some(EncodedPoint::from(&key).as_bytes().to_vec())
}

/// Calls `k256::AffinePoint::from_encoded_point` and encodes the point again
/// without compression. Claimed: the outcome is a function of the argument
/// alone.
#[verifier::external_body]
pub(crate) fn decompress_point(sec1: &[u8]) -> (point: Option<Vec<u8>>)
    ensures
        match point {
            Some(p) => decompressed_point(sec1@) == Some(p@),
            None => decompressed_point(sec1@) is None,
        },
{
    let encoded = EncodedPoint::from_bytes(sec1).ok()?;
    let affine: Option<AffinePoint> = AffinePoint::from_encoded_point(&encoded).into();
    Some(affine?.to_encoded_point(false).as_bytes().to_vec())
}

} // verus!
