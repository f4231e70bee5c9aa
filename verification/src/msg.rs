//! The messages that the contract takes and the answers it gives.

use crate::state::{GuardianAddress, GuardianSetInfo, ParsedVAA, ParsedVAAView};
use vstd::prelude::*;

verus! {

#[derive(Debug, Clone, PartialEq, Eq)]
pub struct InstantiateMsg {
    pub gov_chain: u16,
    pub gov_address: Vec<u8>,
    /// Guardian set to initialise the contract with.
    pub initial_guardian_set: GuardianSetInfo,
    pub guardian_set_expirity: u64,
    pub chain_id: u16,
}

#[derive(Debug, Clone, PartialEq, Eq)]
pub enum ExecuteMsg {
    SubmitVAA { vaa: Vec<u8> },
}

#[derive(Debug, Clone, PartialEq, Eq)]
pub enum QueryMsg {
    GuardianSetInfo {},
    VerifyVAA { vaa: Vec<u8>, block_time: u64 },
    /// The address is given in its canonical form, as bytes.
    QueryAddressHex { address: Vec<u8> },
}

#[derive(Debug, Clone, PartialEq, Eq)]
pub struct GuardianSetInfoResponse {
    /// Current guardian set index
    pub guardian_set_index: u32,
    /// List of guardian addresses
    pub addresses: Vec<GuardianAddress>,
}

#[derive(Debug, Clone, PartialEq, Eq)]
pub struct VerifyVAAResponse {
    pub version: u8,
    pub guardian_set_index: u32,
    pub timestamp: u32,
    pub nonce: u32,
    pub len_signers: u8,
    pub emitter_chain: u16,
    pub emitter_address: Vec<u8>,
    pub sequence: u64,
    pub consistency_level: u8,
    pub payload: Vec<u8>,
    pub hash: Vec<u8>,
}

impl View for VerifyVAAResponse {
    type V = ParsedVAAView;

    open spec fn view(&self) -> ParsedVAAView {
        ParsedVAAView {
            version: self.version,
            guardian_set_index: self.guardian_set_index,
            timestamp: self.timestamp,
            nonce: self.nonce,
            len_signers: self.len_signers,
            emitter_chain: self.emitter_chain,
            emitter_address: self.emitter_address@,
            sequence: self.sequence,
            consistency_level: self.consistency_level,
            payload: self.payload@,
            hash: self.hash@,
        }
    }
}

impl VerifyVAAResponse {
    /// The answer that reports a verified VAA, field by field.
    pub fn from_vaa(vaa: ParsedVAA) -> (response: Self)
        ensures
            response@ == vaa@,
    {
        VerifyVAAResponse {
            version: vaa.version,
            guardian_set_index: vaa.guardian_set_index,
            timestamp: vaa.timestamp,
            nonce: vaa.nonce,
            len_signers: vaa.len_signers,
            emitter_chain: vaa.emitter_chain,
            emitter_address: vaa.emitter_address,
            sequence: vaa.sequence,
            consistency_level: vaa.consistency_level,
            payload: vaa.payload,
            hash: vaa.hash,
        }
    }
}

#[derive(Debug, Clone, PartialEq, Eq)]
pub struct GetAddressHexResponse {
    pub hex: String,
}

/// What a query is answered with.
#[derive(Debug, Clone, PartialEq, Eq)]
pub enum QueryResponse {
    GuardianSetInfo(GuardianSetInfoResponse),
    VerifyVAA(VerifyVAAResponse),
    AddressHex(GetAddressHexResponse),
}

} // verus!
