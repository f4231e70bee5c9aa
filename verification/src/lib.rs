//! Verification core of a cross-chain message attestation protocol.
//!
//! An attested message (a VAA) arrives as a byte buffer. The library decodes
//! it, checks it against a rotating set of guardians until a quorum of
//! recoverable signatures is met, guards against replays and applies the one
//! governance action it knows: the rotation of the guardian set.

pub mod byte_utils;
pub mod contract;
pub mod crypto;
pub mod error;
pub mod helpers;
pub mod hexadecimal;
pub mod msg;
pub mod quorum;
pub mod state;
