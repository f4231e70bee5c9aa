//! The data of the protocol and its wire formats.

use crate::byte_utils::{
    be_at, be_bytes, be_limit, get_bytes20, get_bytes32, get_u16, get_u32, get_u64, get_u8,
    lemma_be_bytes_len, lemma_be_bytes_of_be_value, lemma_be_value_bound,
    lemma_be_value_of_be_bytes,
};
use crate::crypto::{keccak256, keccak256_digest};
use crate::error::ContractError;
use crate::hexadecimal::{hex_bytes, hex_decode, is_hex};
use vstd::prelude::*;
use vstd::slice::{slice_subrange, slice_to_vec};

verus! {

/// General parameters of the contract.
#[derive(Debug, Clone, PartialEq, Eq)]
pub struct ConfigInfo {
    /// Current active guardian set
    pub guardian_set_index: u32,
    /// Period for which a guardian set stays active after it has been replaced
    pub guardian_set_expirity: u64,
    /// Governance chain
    pub gov_chain: u16,
    /// Address of governance contract
    pub gov_address: Vec<u8>,
    /// The id of the current chain
    pub chain_id: u16,
}

/// What a `ConfigInfo` holds, as mathematical values.
pub struct ConfigView {
    pub guardian_set_index: u32,
    pub guardian_set_expirity: u64,
    pub gov_chain: u16,
    pub gov_address: Seq<u8>,
    pub chain_id: u16,
}

impl View for ConfigInfo {
    type V = ConfigView;

    open spec fn view(&self) -> ConfigView {
        ConfigView {
            guardian_set_index: self.guardian_set_index,
            guardian_set_expirity: self.guardian_set_expirity,
            gov_chain: self.gov_chain,
            gov_address: self.gov_address@,
            chain_id: self.chain_id,
        }
    }
}

/// Validator Action Approval (VAA) data
#[derive(Debug, Clone, PartialEq, Eq)]
pub struct ParsedVAA {
    pub version: u8,
    pub guardian_set_index: u32,
    pub timestamp: u32,
    pub nonce: u32,
    pub len_signers: u8,
    pub emitter_chain: u16,
    pub emitter_address: Vec<u8>,
    pub sequence: u64,
    pub consistency_level: u8,
    pub payload: Vec<u8>,
    pub hash: Vec<u8>,
}

/// What a `ParsedVAA` holds, as mathematical values.
pub struct ParsedVAAView {
    pub version: u8,
    pub guardian_set_index: u32,
    pub timestamp: u32,
    pub nonce: u32,
    pub len_signers: u8,
    pub emitter_chain: u16,
    pub emitter_address: Seq<u8>,
    pub sequence: u64,
    pub consistency_level: u8,
    pub payload: Seq<u8>,
    pub hash: Seq<u8>,
}

impl View for ParsedVAA {
    type V = ParsedVAAView;

    open spec fn view(&self) -> ParsedVAAView {
        ParsedVAAView {
            version: self.version,
            guardian_set_index: self.guardian_set_index,
            timestamp: self.timestamp,
            nonce: self.nonce,
            len_signers: self.len_signers,
            emitter_chain: self.emitter_chain,
            emitter_address: self.emitter_address@,
            sequence: self.sequence,
            consistency_level: self.consistency_level,
            payload: self.payload@,
            hash: self.hash@,
        }
    }
}

/// Where the body of a VAA begins: behind the header and the signature
/// blocks that the header announces.
pub open spec fn body_offset(data: Seq<u8>) -> int {
    6 + 66 * data[5]
}

/// The buffer holds a header, the signature blocks it announces and the
/// fixed part of a body.
pub open spec fn vaa_well_formed(data: Seq<u8>) -> bool {
    &&& data.len() >= 6
    &&& body_offset(data) < data.len()
    &&& body_offset(data) + 51 <= data.len()
}

/// The body of a VAA: what the guardians sign.
pub open spec fn vaa_body(data: Seq<u8>) -> Seq<u8> {
    data.subrange(body_offset(data), data.len() as int)
}

/// The digest of a body: Keccak-256 applied twice.
pub open spec fn body_digest(body: Seq<u8>) -> Seq<u8> {
    keccak256(keccak256(body))
}

/// The message that a well-formed buffer holds.
pub open spec fn parsed_vaa(data: Seq<u8>) -> ParsedVAAView {
    let body = body_offset(data);
    ParsedVAAView {
        version: data[0],
        guardian_set_index: be_at(data, 1, 4) as u32,
        timestamp: be_at(data, body, 4) as u32,
        nonce: be_at(data, body + 4, 4) as u32,
        len_signers: data[5],
        emitter_chain: be_at(data, body + 8, 2) as u16,
        emitter_address: data.subrange(body + 10, body + 42),
        sequence: be_at(data, body + 42, 8) as u64,
        consistency_level: data[body + 50],
        payload: data.subrange(body + 51, data.len() as int),
        hash: body_digest(vaa_body(data)),
    }
}

/// The signature blocks of a well-formed buffer, as they stand.
pub open spec fn vaa_signatures(data: Seq<u8>) -> Seq<u8> {
    data.subrange(6, body_offset(data))
}

/// The encoding of the body of a VAA.
pub open spec fn encoded_body(vaa: ParsedVAAView) -> Seq<u8> {
    be_bytes(vaa.timestamp as nat, 4) + be_bytes(vaa.nonce as nat, 4) + be_bytes(
        vaa.emitter_chain as nat,
        2,
    ) + vaa.emitter_address + be_bytes(vaa.sequence as nat, 8) + seq![vaa.consistency_level]
        + vaa.payload
}

/// The encoding of a VAA: the header, the signature blocks and the body.
pub open spec fn encoded_vaa(vaa: ParsedVAAView, signatures: Seq<u8>) -> Seq<u8> {
    seq![vaa.version] + be_bytes(vaa.guardian_set_index as nat, 4) + seq![vaa.len_signers]
        + signatures + encoded_body(vaa)
}

/// The fields can be encoded: there are as many signature blocks as the
/// count says, the emitter address has 32 bytes, and the digest is that of
/// the body.
pub open spec fn encodable(vaa: ParsedVAAView, signatures: Seq<u8>) -> bool {
    &&& signatures.len() == 66 * vaa.len_signers
    &&& vaa.emitter_address.len() == 32
    &&& vaa.hash == body_digest(encoded_body(vaa))
}

/// A field that holds the encoding of a number reads as that number.
proof fn lemma_field_reads(data: Seq<u8>, index: int, width: nat, value: nat)
    requires
        0 <= index,
        index + width <= data.len(),
        value < be_limit(width),
        data.subrange(index, index + width) == be_bytes(value, width),
    ensures
        be_at(data, index, width as int) == value,
{
    lemma_be_value_of_be_bytes(value, width);
}

/// Decoding an encoded VAA gives back the fields it was made of.
pub proof fn lemma_decode_of_encode(vaa: ParsedVAAView, signatures: Seq<u8>)
    requires
        encodable(vaa, signatures),
    ensures
        vaa_well_formed(encoded_vaa(vaa, signatures)),
        parsed_vaa(encoded_vaa(vaa, signatures)) == vaa,
        vaa_signatures(encoded_vaa(vaa, signatures)) == signatures,
{
    let data = encoded_vaa(vaa, signatures);
    let body = encoded_body(vaa);
    let at = 6 + 66 * vaa.len_signers;
    reveal_with_fuel(be_limit, 9);
    lemma_be_bytes_len(vaa.guardian_set_index as nat, 4);
    lemma_be_bytes_len(vaa.timestamp as nat, 4);
    lemma_be_bytes_len(vaa.nonce as nat, 4);
    lemma_be_bytes_len(vaa.emitter_chain as nat, 2);
    lemma_be_bytes_len(vaa.sequence as nat, 8);
    assert(data.len() == at + 51 + vaa.payload.len());
    assert(data[5] == vaa.len_signers);
    assert(body_offset(data) == at);
    assert(data.subrange(at, data.len() as int) =~= body);
    assert(data.subrange(1, 5) =~= be_bytes(vaa.guardian_set_index as nat, 4));
    assert(data.subrange(at, at + 4) =~= be_bytes(vaa.timestamp as nat, 4));
    assert(data.subrange(at + 4, at + 8) =~= be_bytes(vaa.nonce as nat, 4));
    assert(data.subrange(at + 8, at + 10) =~= be_bytes(vaa.emitter_chain as nat, 2));
    assert(data.subrange(at + 10, at + 42) =~= vaa.emitter_address);
    assert(data.subrange(at + 42, at + 50) =~= be_bytes(vaa.sequence as nat, 8));
    assert(data.subrange(at + 51, data.len() as int) =~= vaa.payload);
    assert(data.subrange(6, at) =~= signatures);
    lemma_field_reads(data, 1, 4, vaa.guardian_set_index as nat);
    lemma_field_reads(data, at, 4, vaa.timestamp as nat);
    lemma_field_reads(data, at + 4, 4, vaa.nonce as nat);
    lemma_field_reads(data, at + 8, 2, vaa.emitter_chain as nat);
    lemma_field_reads(data, at + 42, 8, vaa.sequence as nat);
}

/// Encoding what a well-formed buffer decodes to gives back the buffer.
pub proof fn lemma_encode_of_decode(data: Seq<u8>)
    requires
        vaa_well_formed(data),
    ensures
        encodable(parsed_vaa(data), vaa_signatures(data)),
        encoded_vaa(parsed_vaa(data), vaa_signatures(data)) == data,
{
    let vaa = parsed_vaa(data);
    let at = body_offset(data);
    lemma_be_bytes_of_be_value(data.subrange(1, 5));
    lemma_be_bytes_of_be_value(data.subrange(at, at + 4));
    lemma_be_bytes_of_be_value(data.subrange(at + 4, at + 8));
    lemma_be_bytes_of_be_value(data.subrange(at + 8, at + 10));
    lemma_be_bytes_of_be_value(data.subrange(at + 42, at + 50));
    lemma_be_value_bound(data.subrange(1, 5));
    lemma_be_value_bound(data.subrange(at, at + 4));
    lemma_be_value_bound(data.subrange(at + 4, at + 8));
    lemma_be_value_bound(data.subrange(at + 8, at + 10));
    lemma_be_value_bound(data.subrange(at + 42, at + 50));
    reveal_with_fuel(be_limit, 9);
    assert(encoded_body(vaa) =~= vaa_body(data));
    assert(encoded_vaa(vaa, vaa_signatures(data)) =~= data);
}

/// Decoding is idempotent: a buffer and the encoding of what it decodes to
/// decode to the same fields.
pub proof fn lemma_decode_is_idempotent(data: Seq<u8>)
    requires
        vaa_well_formed(data),
    ensures
        vaa_well_formed(encoded_vaa(parsed_vaa(data), vaa_signatures(data))),
        parsed_vaa(encoded_vaa(parsed_vaa(data), vaa_signatures(data))) == parsed_vaa(data),
{
    lemma_encode_of_decode(data);
}

impl ParsedVAA {
    /* VAA format:

    header (length 6):
    0   uint8   version (0x01)
    1   uint32  guardian set index
    5   uint8   len signatures

    per signature (length 66):
    0   uint8       index of the signer (in guardian keys)
    1   [65]uint8   signature

    body:
    0   uint32      timestamp (unix in seconds)
    4   uint32      nonce
    8   uint16      emitter_chain
    10  [32]uint8   emitter_address
    42  uint64      sequence
    50  uint8       consistency_level
    51  []uint8     payload
    */

    pub const HEADER_LEN: usize = 6;

    pub const SIGNATURE_LEN: usize = 66;

    pub const GUARDIAN_SET_INDEX_POS: usize = 1;

    pub const LEN_SIGNER_POS: usize = 5;

    pub const VAA_NONCE_POS: usize = 4;

    pub const VAA_EMITTER_CHAIN_POS: usize = 8;

    pub const VAA_EMITTER_ADDRESS_POS: usize = 10;

    pub const VAA_SEQUENCE_POS: usize = 42;

    pub const VAA_CONSISTENCY_LEVEL_POS: usize = 50;

    pub const VAA_PAYLOAD_POS: usize = 51;

    // Signature data offsets in the signature block
    pub const SIG_DATA_POS: usize = 1;

    // Signature length minus recovery id at the end
    pub const SIG_DATA_LEN: usize = 64;

    // Recovery byte is last after the main signature
    pub const SIG_RECOVERY_POS: usize = 65;

    /// Decodes a VAA. Signatures and guardian sets are not looked at here.
    pub fn deserialize(data: &[u8]) -> (result: Result<Self, ContractError>)
        ensures
            match result {
                Ok(vaa) => vaa_well_formed(data@) && vaa@ == parsed_vaa(data@) && vaa.hash@.len()
                    == 32,
                Err(e) => !vaa_well_formed(data@) && e == (ContractError::InvalidVAA {  }),
            },
    {
        if data.len() < Self::HEADER_LEN {
            return Err(ContractError::InvalidVAA {  });
        }
        let len_signers = get_u8(data, Self::LEN_SIGNER_POS) as usize;
        let body_offset: usize = Self::HEADER_LEN + Self::SIGNATURE_LEN * len_signers;

        // Hash the body
        if body_offset >= data.len() {
            return Err(ContractError::InvalidVAA {  });
        }
        let body = slice_subrange(data, body_offset, data.len());
        let hash = keccak256_digest(body);

        // Rehash the hash
        let hash = keccak256_digest(hash.as_slice());

        Self::deserialize_with_hash(data, hash)
    }

    /// Decodes the fields of a VAA whose digest is known already.
    pub fn deserialize_with_hash(data: &[u8], hash: Vec<u8>) -> (result: Result<
        Self,
        ContractError,
    >)
        ensures
            match result {
                Ok(vaa) => vaa_well_formed(data@) && vaa@ == (ParsedVAAView {
                    hash: hash@,
                    ..parsed_vaa(data@)
                }),
                Err(e) => !vaa_well_formed(data@) && e == (ContractError::InvalidVAA {  }),
            },
    {
        if data.len() < Self::HEADER_LEN {
            return Err(ContractError::InvalidVAA {  });
        }
        let version = get_u8(data, 0);

        // Load 4 bytes starting from index 1
        let guardian_set_index: u32 = get_u32(data, Self::GUARDIAN_SET_INDEX_POS);
        let len_signers = get_u8(data, Self::LEN_SIGNER_POS);
        let body_offset: usize = Self::HEADER_LEN + Self::SIGNATURE_LEN * (len_signers as usize);

        if body_offset >= data.len() || body_offset + Self::VAA_PAYLOAD_POS > data.len() {
            return Err(ContractError::InvalidVAA {  });
        }
        let timestamp = get_u32(data, body_offset);
        let nonce = get_u32(data, body_offset + Self::VAA_NONCE_POS);
        let emitter_chain = get_u16(data, body_offset + Self::VAA_EMITTER_CHAIN_POS);
        let emitter_address = slice_to_vec(
            get_bytes32(data, body_offset + Self::VAA_EMITTER_ADDRESS_POS),
        );
        let sequence = get_u64(data, body_offset + Self::VAA_SEQUENCE_POS);
        let consistency_level = get_u8(data, body_offset + Self::VAA_CONSISTENCY_LEVEL_POS);
        let payload = slice_to_vec(
            slice_subrange(data, body_offset + Self::VAA_PAYLOAD_POS, data.len()),
        );

        Ok(
            ParsedVAA {
                version,
                guardian_set_index,
                timestamp,
                nonce,
                len_signers,
                emitter_chain,
                emitter_address,
                sequence,
                consistency_level,
                payload,
                hash,
            },
        )
    }
}

/// A guardian address: the low 20 bytes of the Keccak-256 digest of an
/// uncompressed secp256k1 public key.
#[derive(Debug, Clone, PartialEq, Eq)]
pub struct GuardianAddress {
    pub bytes: Vec<u8>,
}

impl View for GuardianAddress {
    type V = Seq<u8>;

    open spec fn view(&self) -> Seq<u8> {
        self.bytes@
    }
}

impl GuardianAddress {
    /// The address that a text of hexadecimal digits stands for.
    pub fn from(string: &str) -> (address: GuardianAddress)
        requires
            is_hex(string@),
        ensures
            address@ == hex_bytes(string@),
    {
        GuardianAddress { bytes: hex_decode(string).unwrap() }
    }
}

/// Guardian set information
#[derive(Debug, Clone, PartialEq, Eq)]
pub struct GuardianSetInfo {
    /// List of guardian addresses
    pub addresses: Vec<GuardianAddress>,
    /// Guardian set expiration time; zero where none was set
    pub expiration_time: u64,
}

/// What a `GuardianSetInfo` holds, as mathematical values.
pub struct GuardianSetView {
    pub addresses: Seq<Seq<u8>>,
    pub expiration_time: u64,
}

impl View for GuardianSetInfo {
    type V = GuardianSetView;

    open spec fn view(&self) -> GuardianSetView {
        GuardianSetView {
            addresses: Seq::new(self.addresses@.len(), |i: int| self.addresses@[i]@),
            expiration_time: self.expiration_time,
        }
    }
}

/// The number of signatures that a set of `n` guardians asks for.
pub open spec fn quorum_of(n: nat) -> nat {
    if n == 0 {
        0
    } else {
        (((n * 10 / 3) * 2) / 10 + 1) as nat
    }
}

/// A larger guardian set never asks for fewer signatures.
pub proof fn lemma_quorum_is_monotonic(n: nat, m: nat)
    requires
        n <= m,
    ensures
        quorum_of(n) <= quorum_of(m),
{
}

/// A guardian set that is not empty asks for more than two thirds of its
/// guardians, and for no more than it has.
pub proof fn lemma_quorum_bounds(n: nat)
    requires
        n > 0,
    ensures
        3 * quorum_of(n) > 2 * n,
        quorum_of(n) <= n,
{
}

impl GuardianSetInfo {
    /// Marks a set that has been replaced at `block_time`: it expires once
    /// the grace period has gone by.
    pub fn retire(&mut self, block_time: u64, grace_period: u64)
        requires
            block_time + grace_period <= u64::MAX,
        ensures
            final(self)@.addresses == old(self)@.addresses,
            final(self)@.expiration_time == block_time + grace_period,
    {
        self.expiration_time = block_time + grace_period;
    }

    /// The number of signatures that this set asks for. An empty set asks
    /// for none.
    pub fn quorum(&self) -> (q: usize)
        ensures
            q == quorum_of(self@.addresses.len()),
    {
        if self.addresses.len() == 0 {
            return 0;
        }
        let n: u128 = self.addresses.len() as u128;
        let q: u128 = ((n * 10 / 3) * 2) / 10 + 1;
        assert(q <= n);
        q as usize
    }
}

/// Wormhole contract generic information
#[derive(Debug, Clone, PartialEq, Eq)]
pub struct WormholeInfo {
    /// Period for which a guardian set stays active after it has been replaced
    pub guardian_set_expirity: u64,
}

/// The governance message that the payload of a governance VAA holds.
#[derive(Debug, Clone, PartialEq, Eq)]
pub struct GovernancePacket {
    pub module: Vec<u8>,
    pub action: u8,
    pub chain: u16,
    pub payload: Vec<u8>,
}

/// What a `GovernancePacket` holds, as mathematical values.
pub struct GovernancePacketView {
    pub module: Seq<u8>,
    pub action: u8,
    pub chain: u16,
    pub payload: Seq<u8>,
}

impl View for GovernancePacket {
    type V = GovernancePacketView;

    open spec fn view(&self) -> GovernancePacketView {
        GovernancePacketView {
            module: self.module@,
            action: self.action,
            chain: self.chain,
            payload: self.payload@,
        }
    }
}

/// The governance packet that a buffer of at least 35 bytes holds.
pub open spec fn parsed_governance_packet(data: Seq<u8>) -> GovernancePacketView {
    GovernancePacketView {
        module: data.subrange(0, 32),
        action: data[32],
        chain: be_at(data, 33, 2) as u16,
        payload: data.subrange(35, data.len() as int),
    }
}

impl GovernancePacket {
    /// Decodes a governance packet: 32 bytes of module, one of action, two of
    /// chain, and the payload. A shorter buffer is rejected.
    pub fn deserialize(data: &[u8]) -> (result: Result<Self, ContractError>)
        ensures
            match result {
                Ok(packet) => data@.len() >= 35 && packet@ == parsed_governance_packet(data@),
                Err(e) => data@.len() < 35 && e == (ContractError::InvalidVAA {  }),
            },
    {
        if data.len() < 35 {
            return Err(ContractError::InvalidVAA {  });
        }
        let module = slice_to_vec(get_bytes32(data, 0));
        let action = get_u8(data, 32);
        let chain = get_u16(data, 33);
        let payload = slice_to_vec(slice_subrange(data, 35, data.len()));

        Ok(GovernancePacket { module, action, chain, payload })
    }
}

/// The actions that a governance packet can name, by their codes. Only the
/// guardian set upgrade is carried out.
#[derive(Debug, Clone, Copy, PartialEq, Eq)]
pub enum GovernanceAction {
    /// Code 1
    ContractUpgrade,
    /// Code 2
    GuardianSetUpgrade,
    /// Code 3
    SetFee,
    /// Code 4
    TransferFee,
    /// Any other code
    Unknown,
}

impl GovernanceAction {
    /// The action that a code stands for.
    pub fn from_code(code: u8) -> (action: Self)
        ensures
            action == match code {
                1 => GovernanceAction::ContractUpgrade,
                2 => GovernanceAction::GuardianSetUpgrade,
                3 => GovernanceAction::SetFee,
                4 => GovernanceAction::TransferFee,
                _ => GovernanceAction::Unknown,
            },
    {
        match code {
            1 => GovernanceAction::ContractUpgrade,
            2 => GovernanceAction::GuardianSetUpgrade,
            3 => GovernanceAction::SetFee,
            4 => GovernanceAction::TransferFee,
            _ => GovernanceAction::Unknown,
        }
    }
}

/// Governance action 1
#[derive(Debug, Clone, PartialEq, Eq)]
pub struct ContractUpgrade {
    pub new_contract: u64,
}

/// Governance action 2
#[derive(Debug, Clone, PartialEq, Eq)]
pub struct GuardianSetUpgrade {
    pub new_guardian_set_index: u32,
    pub new_guardian_set: GuardianSetInfo,
}

/// What a `GuardianSetUpgrade` holds, as mathematical values.
pub struct GuardianSetUpgradeView {
    pub new_guardian_set_index: u32,
    pub new_guardian_set: GuardianSetView,
}

impl View for GuardianSetUpgrade {
    type V = GuardianSetUpgradeView;

    open spec fn view(&self) -> GuardianSetUpgradeView {
        GuardianSetUpgradeView {
            new_guardian_set_index: self.new_guardian_set_index,
            new_guardian_set: self.new_guardian_set@,
        }
    }
}

impl ContractUpgrade {
    /// Decodes a contract upgrade: the code id is the 64-bit number in the
    /// last eight of 32 bytes. A shorter buffer is rejected.
    pub fn deserialize(data: &[u8]) -> (result: Result<Self, ContractError>)
        ensures
            match result {
                Ok(upgrade) => data@.len() >= 32 && upgrade.new_contract == be_at(data@, 24, 8),
                Err(e) => data@.len() < 32 && e == (ContractError::InvalidVAA {  }),
            },
    {
        if data.len() < 32 {
            return Err(ContractError::InvalidVAA {  });
        }
        let new_contract = get_u64(data, 24);
        Ok(ContractUpgrade { new_contract })
    }
}

/// The buffer holds an index, a count and as many addresses as the count says.
pub open spec fn upgrade_well_formed(data: Seq<u8>) -> bool {
    data.len() >= 5 && 5 + 20 * data[4] <= data.len()
}

/// The guardian set upgrade that a well-formed buffer holds.
pub open spec fn parsed_upgrade(data: Seq<u8>) -> GuardianSetUpgradeView {
    GuardianSetUpgradeView {
        new_guardian_set_index: be_at(data, 0, 4) as u32,
        new_guardian_set: GuardianSetView {
            addresses: Seq::new(data[4] as nat, |i: int| data.subrange(5 + 20 * i, 25 + 20 * i)),
            expiration_time: 0,
        },
    }
}

impl GuardianSetUpgrade {
    /* Payload format
    0   uint32 new_index
    4   uint8 len(keys)
    5   [][20]uint8 guardian addresses
    */

    /// Decodes a guardian set upgrade. The new set has no expiration time.
    pub fn deserialize(data: &[u8]) -> (result: Result<Self, ContractError>)
        ensures
            match result {
                Ok(upgrade) => upgrade_well_formed(data@) && upgrade@ == parsed_upgrade(data@),
                Err(e) => !upgrade_well_formed(data@) && e == (ContractError::InvalidVAA {  }),
            },
    {
        if data.len() < 5 {
            return Err(ContractError::InvalidVAA {  });
        }
        let new_guardian_set_index = get_u32(data, 0);
        let n_guardians = get_u8(data, 4);

        let mut addresses: Vec<GuardianAddress> = Vec::new();
        let mut i: u8 = 0;
        while i < n_guardians
            invariant
                i <= n_guardians,
                n_guardians == data@[4],
                data@.len() >= 5,
                5 + 20 * i <= data@.len(),
                addresses@.len() == i,
                forall|k: int|
                    0 <= k < i ==> (#[trigger] addresses@[k])@ == data@.subrange(
                        5 + 20 * k,
                        25 + 20 * k,
                    ),
            decreases n_guardians - i,
        {
            let pos: usize = 5 + (i as usize) * 20;
            if pos + 20 > data.len() {
                return Err(ContractError::InvalidVAA {  });
            }
            addresses.push(GuardianAddress { bytes: slice_to_vec(get_bytes20(data, pos)) });
            i += 1;
        }

        let new_guardian_set = GuardianSetInfo { addresses, expiration_time: 0 };
        assert(new_guardian_set@.addresses =~= parsed_upgrade(data@).new_guardian_set.addresses);

        Ok(GuardianSetUpgrade { new_guardian_set_index, new_guardian_set })
    }
}

} // verus!
