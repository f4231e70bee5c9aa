//! The contract: its state, the handling of a submitted VAA, the governance
//! state machine and the queries.
//!
//! The state is passed into every operation. An operation that fails leaves
//! it as it was.

use crate::byte_utils::{extend_address_to_32, extended_to_32};
use crate::error::ContractError;
use crate::helpers::bytes_equal;
use crate::hexadecimal::{hex_encode, hex_string};
use crate::msg::{
    ExecuteMsg, GetAddressHexResponse, GuardianSetInfoResponse, InstantiateMsg, QueryMsg,
    QueryResponse, VerifyVAAResponse,
};
use crate::quorum::{claim_error, lemma_expiration_decides, verify_vaa};
use crate::state::{
    parsed_governance_packet, parsed_upgrade, parsed_vaa, upgrade_well_formed, vaa_well_formed,
    ConfigInfo, ConfigView, GovernanceAction, GovernancePacket, GuardianAddress, GuardianSetInfo,
    GuardianSetUpgrade, GuardianSetUpgradeView, GuardianSetView, ParsedVAA, ParsedVAAView,
};
use vstd::prelude::*;
use vstd::slice::slice_to_vec;

verus! {

/// What the contract keeps between calls: its configuration, every guardian
/// set it has known, by index, and the digests of the VAAs it has consumed.
#[derive(Debug, Clone, PartialEq, Eq)]
pub struct ContractState {
    config: ConfigInfo,
    guardian_sets: Vec<GuardianSetInfo>,
    consumed_vaas: Vec<Vec<u8>>,
}

/// What a `ContractState` holds, as mathematical values. The digests stand
/// in the order in which they were consumed.
pub struct ContractStateView {
    pub config: ConfigView,
    pub guardian_sets: Seq<GuardianSetView>,
    pub consumed: Seq<Seq<u8>>,
}

impl View for ContractState {
    type V = ContractStateView;

    closed spec fn view(&self) -> ContractStateView {
        ContractStateView {
            config: self.config@,
            guardian_sets: Seq::new(self.guardian_sets@.len(), |i: int| self.guardian_sets@[i]@),
            consumed: Seq::new(self.consumed_vaas@.len(), |i: int| self.consumed_vaas@[i]@),
        }
    }
}

/// The indices of the guardian sets run from zero to the current one, and no
/// digest is recorded twice.
pub open spec fn state_valid(s: ContractStateView) -> bool {
    &&& s.guardian_sets.len() == s.config.guardian_set_index + 1
    &&& s.consumed.no_duplicates()
}

/// The guardian set with the given index, if the store holds one.
pub open spec fn guardian_set_at(sets: Seq<GuardianSetView>, index: u32) -> Option<
    GuardianSetView,
> {
    if index < sets.len() {
        Some(sets[index as int])
    } else {
        None
    }
}

/// What is wrong with a buffer as a VAA signed by one of the guardian sets
/// of the store, if anything.
pub open spec fn verification_error(
    sets: Seq<GuardianSetView>,
    data: Seq<u8>,
    block_time: u64,
) -> Option<ContractError> {
    if !vaa_well_formed(data) {
        Some(ContractError::InvalidVAA {  })
    } else {
        claim_error(
            parsed_vaa(data),
            data,
            guardian_set_at(sets, parsed_vaa(data).guardian_set_index),
            block_time,
        )
    }
}

/// The bytes of a module name without its null padding.
pub open spec fn strip_nulls(bytes: Seq<u8>) -> Seq<u8>
    decreases bytes.len(),
{
    if bytes.len() == 0 {
        Seq::empty()
    } else if bytes.last() == 0 {
        strip_nulls(bytes.drop_last())
    } else {
        strip_nulls(bytes.drop_last()).push(bytes.last())
    }
}

/// The module name, without its null padding, reads "Core".
pub open spec fn is_core_module(module: Seq<u8>) -> bool {
    strip_nulls(module) == seq![0x43u8, 0x6fu8, 0x72u8, 0x65u8]
}

/// What a guardian set upgrade comes to under a configuration: the upgrade
/// must decode and name the index that follows the current one.
pub open spec fn upgrade_result(config: ConfigView, data: Seq<u8>) -> Result<
    GuardianSetUpgradeView,
    ContractError,
> {
    if !upgrade_well_formed(data) {
        Err(ContractError::InvalidVAA {  })
    } else if parsed_upgrade(data).new_guardian_set_index != config.guardian_set_index + 1 {
        Err(ContractError::GuardianSetIndexIncreaseError {  })
    } else {
        Ok(parsed_upgrade(data))
    }
}

/// What a governance payload comes to under a configuration: the packet must
/// decode, speak for the module "Core", address this chain or every chain,
/// and carry the one action that is implemented, a guardian set upgrade.
pub open spec fn governance_result(config: ConfigView, data: Seq<u8>) -> Result<
    GuardianSetUpgradeView,
    ContractError,
> {
    if data.len() < 35 {
        Err(ContractError::InvalidVAA {  })
    } else if !is_core_module(parsed_governance_packet(data).module) {
        Err(ContractError::InvalidModule {  })
    } else if parsed_governance_packet(data).chain != 0 && parsed_governance_packet(data).chain
        != config.chain_id {
        Err(ContractError::InvalidGovernanceVaa {  })
    } else if parsed_governance_packet(data).action != 2 {
        Err(ContractError::InvalidVAAAction {  })
    } else {
        upgrade_result(config, parsed_governance_packet(data).payload)
    }
}

/// What a verified VAA comes to: it must not have been consumed before, must
/// come from the governance origin, must be signed by the current guardian
/// set, and its payload must pass as a governance payload.
pub open spec fn verified_vaa_result(config: ConfigView, vaa: ParsedVAAView, consumed: bool)
    -> Result<GuardianSetUpgradeView, ContractError> {
    if consumed {
        Err(ContractError::VaaAlreadyExecuted {  })
    } else if !(config.gov_chain == vaa.emitter_chain && config.gov_address
        == vaa.emitter_address) {
        Err(ContractError::InvalidVAAAction {  })
    } else if config.guardian_set_index != vaa.guardian_set_index {
        Err(ContractError::InvalidGovernanceVaa {  })
    } else {
        governance_result(config, vaa.payload)
    }
}

/// What the submission of a buffer comes to in a state, at a time.
pub open spec fn submit_result(s: ContractStateView, data: Seq<u8>, block_time: u64) -> Result<
    GuardianSetUpgradeView,
    ContractError,
> {
    match verification_error(s.guardian_sets, data, block_time) {
        Some(e) => Err(e),
        None => verified_vaa_result(
            s.config,
            parsed_vaa(data),
            s.consumed.contains(parsed_vaa(data).hash),
        ),
    }
}

/// The state after a VAA with the digest `hash` has brought about the
/// upgrade at `block_time`: the digest is recorded, the new set is stored
/// under the new index, which becomes the current one, and the set before
/// it expires once the grace period has gone by.
pub open spec fn rotated(
    s: ContractStateView,
    upgrade: GuardianSetUpgradeView,
    hash: Seq<u8>,
    block_time: u64,
) -> ContractStateView {
    let old_index = s.config.guardian_set_index as int;
    ContractStateView {
        config: ConfigView {
            guardian_set_index: upgrade.new_guardian_set_index,
            guardian_set_expirity: s.config.guardian_set_expirity,
            gov_chain: s.config.gov_chain,
            gov_address: s.config.gov_address,
            chain_id: s.config.chain_id,
        },
        guardian_sets: s.guardian_sets.update(
            old_index,
            GuardianSetView {
                addresses: s.guardian_sets[old_index].addresses,
                expiration_time: (block_time + s.config.guardian_set_expirity) as u64,
            },
        ).push(upgrade.new_guardian_set),
        consumed: s.consumed.push(hash),
    }
}

/// A VAA that was accepted is rejected when it is submitted again: its digest
/// is on record. Where its signatures still verify, that is the fault named.
pub proof fn lemma_replay_is_rejected(
    s: ContractStateView,
    data: Seq<u8>,
    first_time: u64,
    second_time: u64,
)
    requires
        submit_result(s, data, first_time) is Ok,
    ensures
        ({
            let after = rotated(
                s,
                submit_result(s, data, first_time)->Ok_0,
                parsed_vaa(data).hash,
                first_time,
            );
            &&& submit_result(after, data, second_time) is Err
            &&& verification_error(after.guardian_sets, data, second_time) is None
                ==> submit_result(after, data, second_time) == Err::<
                GuardianSetUpgradeView,
                ContractError,
            >(ContractError::VaaAlreadyExecuted {  })
        }),
{
    let hash = parsed_vaa(data).hash;
    let after = rotated(s, submit_result(s, data, first_time)->Ok_0, hash, first_time);
    assert(after.consumed[s.consumed.len() as int] == hash);
}

/// Every digest on record stays on record when a VAA is accepted.
pub proof fn lemma_consumed_is_append_only(
    s: ContractStateView,
    upgrade: GuardianSetUpgradeView,
    hash: Seq<u8>,
    block_time: u64,
    earlier: Seq<u8>,
)
    requires
        s.consumed.contains(earlier),
    ensures
        rotated(s, upgrade, hash, block_time).consumed.contains(earlier),
{
    let i = choose|i: int| 0 <= i < s.consumed.len() && s.consumed[i] == earlier;
    assert(rotated(s, upgrade, hash, block_time).consumed[i] == earlier);
}

/// An upgrade that names any index but the one after the current index is
/// rejected: no index is skipped and none comes again.
pub proof fn lemma_rotation_is_sequential(config: ConfigView, data: Seq<u8>)
    requires
        upgrade_well_formed(data),
    ensures
        upgrade_result(config, data) is Ok <==> parsed_upgrade(data).new_guardian_set_index
            == config.guardian_set_index + 1,
        upgrade_result(config, data) is Err ==> upgrade_result(config, data) == Err::<
            GuardianSetUpgradeView,
            ContractError,
        >(ContractError::GuardianSetIndexIncreaseError {  }),
{
}

/// What an accepted upgrade does to the state: the state stays valid, the
/// index moves on by one, the new set stands under it with no expiration
/// time, the set before it keeps its guardians and expires when the grace
/// period has gone by, and the sets before that are as they were.
pub proof fn lemma_rotation_retires_old_set(
    s: ContractStateView,
    data: Seq<u8>,
    hash: Seq<u8>,
    block_time: u64,
)
    requires
        state_valid(s),
        !s.consumed.contains(hash),
        upgrade_result(s.config, data) is Ok,
        block_time + s.config.guardian_set_expirity <= u64::MAX,
    ensures
        ({
            let old_index = s.config.guardian_set_index;
            let after = rotated(s, parsed_upgrade(data), hash, block_time);
            &&& state_valid(after)
            &&& after.config.guardian_set_index == old_index + 1
            &&& guardian_set_at(after.guardian_sets, after.config.guardian_set_index) == Some(
                parsed_upgrade(data).new_guardian_set,
            )
            &&& parsed_upgrade(data).new_guardian_set.expiration_time == 0
            &&& guardian_set_at(after.guardian_sets, old_index) == Some(
                GuardianSetView {
                    addresses: s.guardian_sets[old_index as int].addresses,
                    expiration_time: (block_time + s.config.guardian_set_expirity) as u64,
                },
            )
            &&& forall|i: u32|
                i < old_index ==> guardian_set_at(after.guardian_sets, i) == guardian_set_at(
                    s.guardian_sets,
                    i,
                )
        }),
{
    let after = rotated(s, parsed_upgrade(data), hash, block_time);
    assert forall|i: int, j: int|
        0 <= i < after.consumed.len() && 0 <= j < after.consumed.len() && i != j implies after.consumed[i]
        != after.consumed[j] by {
        if i < s.consumed.len() && j < s.consumed.len() {
        } else if i < s.consumed.len() {
            assert(s.consumed.contains(s.consumed[i]));
        } else if j < s.consumed.len() {
            assert(s.consumed.contains(s.consumed[j]));
        }
    }
}

/// A guardian set that has an expiration time keeps one through a rotation,
/// unless the rotation falls on time zero with no grace period.
pub proof fn lemma_expiration_time_stays_set(
    s: ContractStateView,
    upgrade: GuardianSetUpgradeView,
    hash: Seq<u8>,
    block_time: u64,
    index: u32,
)
    requires
        state_valid(s),
        0 < block_time + s.config.guardian_set_expirity <= u64::MAX,
        guardian_set_at(s.guardian_sets, index) matches Some(set) && set.expiration_time != 0,
    ensures
        guardian_set_at(rotated(s, upgrade, hash, block_time).guardian_sets, index) matches Some(
            set,
        ) && set.expiration_time != 0,
{
}

/// After a rotation, a VAA that claims the retired set is judged within the
/// grace period as it was judged before the rotation, the set taken as one
/// that does not expire; after the grace period a well-formed VAA of
/// version 1 that claims it is rejected because the set has expired.
pub proof fn lemma_retired_set_expires(
    s: ContractStateView,
    upgrade: GuardianSetUpgradeView,
    hash: Seq<u8>,
    rotation_time: u64,
    data: Seq<u8>,
    block_time: u64,
)
    requires
        state_valid(s),
        rotation_time + s.config.guardian_set_expirity <= u64::MAX,
        vaa_well_formed(data),
        parsed_vaa(data).guardian_set_index == s.config.guardian_set_index,
    ensures
        ({
            let old_index = s.config.guardian_set_index as int;
            let expiration_time = rotation_time + s.config.guardian_set_expirity;
            let after = rotated(s, upgrade, hash, rotation_time);
            &&& block_time <= expiration_time ==> verification_error(
                after.guardian_sets,
                data,
                block_time,
            ) == claim_error(
                parsed_vaa(data),
                data,
                Some(
                    GuardianSetView {
                        addresses: s.guardian_sets[old_index].addresses,
                        expiration_time: 0,
                    },
                ),
                block_time,
            )
            &&& parsed_vaa(data).version == 1 && expiration_time != 0 && block_time
                > expiration_time ==> verification_error(after.guardian_sets, data, block_time)
                == Some(ContractError::GuardianSetExpired {  })
        }),
{
    let old_index = s.config.guardian_set_index as int;
    let expiration_time = (rotation_time + s.config.guardian_set_expirity) as u64;
    lemma_expiration_decides(
        parsed_vaa(data),
        data,
        s.guardian_sets[old_index].addresses,
        expiration_time,
        block_time,
    );
}

/// The observable record of a guardian set change.
#[derive(Debug, Clone, PartialEq, Eq)]
pub struct GuardianSetChange {
    pub old_guardian_set_index: u32,
    pub new_guardian_set_index: u32,
}

impl ContractState {
    /// The state is valid: see `state_valid`.
    pub open spec fn wf(&self) -> bool {
        state_valid(self@)
    }

    /// The configuration.
    pub fn config(&self) -> (config: &ConfigInfo)
        ensures
            config@ == self@.config,
    {
        &self.config
    }

    /// The guardian set with the given index, if the state holds one.
    pub fn guardian_set(&self, index: u32) -> (set: Option<&GuardianSetInfo>)
        ensures
            match set {
                Some(found) => guardian_set_at(self@.guardian_sets, index) == Some(found@),
                None => guardian_set_at(self@.guardian_sets, index) is None,
            },
    {
        if (index as usize) < self.guardian_sets.len() {
            Some(&self.guardian_sets[index as usize])
        } else {
            None
        }
    }

    /// Whether a VAA with this digest has been consumed.
    pub fn is_consumed(&self, hash: &[u8]) -> (consumed: bool)
        ensures
            consumed == self@.consumed.contains(hash@),
    {
        let mut i: usize = 0;
        while i < self.consumed_vaas.len()
            invariant
                i <= self.consumed_vaas@.len(),
                forall|k: int| 0 <= k < i ==> self@.consumed[k] != hash@,
            decreases self.consumed_vaas@.len() - i,
        {
            if bytes_equal(self.consumed_vaas[i].as_slice(), hash) {
                assert(self@.consumed[i as int] == hash@);
                return true;
            }
            i += 1;
        }
        false
    }
}

/// The state of a contract that starts with the guardian set of the message
/// at index zero and has consumed nothing.
pub fn instantiate(msg: InstantiateMsg) -> (state: ContractState)
    ensures
        state.wf(),
        state@.config == (ConfigView {
            guardian_set_index: 0,
            guardian_set_expirity: msg.guardian_set_expirity,
            gov_chain: msg.gov_chain,
            gov_address: msg.gov_address@,
            chain_id: msg.chain_id,
        }),
        state@.guardian_sets == seq![msg.initial_guardian_set@],
        state@.consumed == Seq::<Seq<u8>>::empty(),
{
    // Save general wormhole info
    let config = ConfigInfo {
        gov_chain: msg.gov_chain,
        gov_address: msg.gov_address,
        guardian_set_index: 0,
        guardian_set_expirity: msg.guardian_set_expirity,
        chain_id: msg.chain_id,
    };
    let mut guardian_sets: Vec<GuardianSetInfo> = Vec::new();
    guardian_sets.push(msg.initial_guardian_set);
    let state = ContractState { config, guardian_sets, consumed_vaas: Vec::new() };
    assert(state@.guardian_sets =~= seq![msg.initial_guardian_set@]);
    assert(state@.consumed =~= Seq::<Seq<u8>>::empty());
    state
}

/// Carries out a message: the one there is submits a VAA.
pub fn execute(state: &mut ContractState, block_time: u64, msg: ExecuteMsg) -> (result: Result<
    GuardianSetChange,
    ContractError,
>)
    requires
        old(state).wf(),
        block_time + old(state)@.config.guardian_set_expirity <= u64::MAX,
    ensures
        final(state).wf(),
        match (msg, result) {
            (ExecuteMsg::SubmitVAA { vaa }, Ok(change)) => submitted(
                old(state)@,
                final(state)@,
                vaa@,
                block_time,
                change,
            ),
            (ExecuteMsg::SubmitVAA { vaa }, Err(e)) => rejected(
                old(state)@,
                final(state)@,
                vaa@,
                block_time,
                e,
            ),
        },
{
    match msg {
        ExecuteMsg::SubmitVAA { vaa } => handle_submit_vaa(state, block_time, vaa.as_slice()),
    }
}

/// The submission of `data` at `block_time` took the state from `before` to
/// `after` and brought about the change.
pub open spec fn submitted(
    before: ContractStateView,
    after: ContractStateView,
    data: Seq<u8>,
    block_time: u64,
    change: GuardianSetChange,
) -> bool {
    &&& submit_result(before, data, block_time) matches Ok(upgrade) && after == rotated(
        before,
        upgrade,
        parsed_vaa(data).hash,
        block_time,
    )
    &&& change.old_guardian_set_index == before.config.guardian_set_index
    &&& change.new_guardian_set_index == after.config.guardian_set_index
}

/// The submission of `data` at `block_time` failed with `e` and left the
/// state as it was.
pub open spec fn rejected(
    before: ContractStateView,
    after: ContractStateView,
    data: Seq<u8>,
    block_time: u64,
    e: ContractError,
) -> bool {
    &&& submit_result(before, data, block_time) matches Err(err) && err == e
    &&& after == before
}

/// Process VAA message signed by guardians
pub fn handle_submit_vaa(state: &mut ContractState, block_time: u64, data: &[u8]) -> (result:
    Result<GuardianSetChange, ContractError>)
    requires
        old(state).wf(),
        block_time + old(state)@.config.guardian_set_expirity <= u64::MAX,
    ensures
        final(state).wf(),
        match result {
            Ok(change) => submitted(old(state)@, final(state)@, data@, block_time, change),
            Err(e) => rejected(old(state)@, final(state)@, data@, block_time, e),
        },
{
    let vaa = match parse_and_verify_vaa(state, data, block_time) {
        Ok(vaa) => vaa,
        Err(e) => {
            return Err(e);
        },
    };
    let consumed = state.is_consumed(vaa.hash.as_slice());
    let upgrade = match handle_verified_vaa(&state.config, &vaa, consumed) {
        Ok(upgrade) => upgrade,
        Err(e) => {
            return Err(e);
        },
    };
    let ghost before = state@;
    let old_guardian_set_index = state.config.guardian_set_index;
    let index = old_guardian_set_index as usize;

    // The digest is recorded before the governance action takes effect.
    state.consumed_vaas.push(vaa.hash);

    state.config.guardian_set_index = upgrade.new_guardian_set_index;
    state.guardian_sets[index].retire(block_time, state.config.guardian_set_expirity);
    state.guardian_sets.push(upgrade.new_guardian_set);

    proof {
        let after = rotated(before, upgrade@, parsed_vaa(data@).hash, block_time);
        assert(state@.guardian_sets =~= after.guardian_sets);
        assert(state@.consumed =~= after.consumed);
        assert(state@.config == after.config);
        assert(state@.consumed.no_duplicates());
    }
    Ok(
        GuardianSetChange {
            old_guardian_set_index,
            new_guardian_set_index: upgrade.new_guardian_set_index,
        },
    )
}

/// Decides what a verified VAA brings about under a configuration;
/// `consumed` says whether its digest has been recorded before.
pub fn handle_verified_vaa(config: &ConfigInfo, vaa: &ParsedVAA, consumed: bool) -> (result:
    Result<GuardianSetUpgrade, ContractError>)
    ensures
        match result {
            Ok(upgrade) => verified_vaa_result(config@, vaa@, consumed) == Ok::<
                GuardianSetUpgradeView,
                ContractError,
            >(upgrade@),
            Err(e) => verified_vaa_result(config@, vaa@, consumed) == Err::<
                GuardianSetUpgradeView,
                ContractError,
            >(e),
        },
{
    if consumed {
        return Err(ContractError::VaaAlreadyExecuted {  });
    }
    if config.gov_chain == vaa.emitter_chain && bytes_equal(
        config.gov_address.as_slice(),
        vaa.emitter_address.as_slice(),
    ) {
        if config.guardian_set_index != vaa.guardian_set_index {
            return Err(ContractError::InvalidGovernanceVaa {  });
        }
        return handle_governance_payload(config, vaa.payload.as_slice());
    }
    Err(ContractError::InvalidVAAAction {  })
}

/// Whether a module name, without its null padding, reads "Core".
pub fn module_is_core(module: &[u8]) -> (core: bool)
    ensures
        core == is_core_module(module@),
{
    let mut name: Vec<u8> = Vec::new();
    let mut i: usize = 0;
    while i < module.len()
        invariant
            i <= module@.len(),
            name@ == strip_nulls(module@.subrange(0, i as int)),
        decreases module@.len() - i,
    {
        assert(module@.subrange(0, i + 1).drop_last() =~= module@.subrange(0, i as int));
        if module[i] != 0 {
            name.push(module[i]);
        }
        i += 1;
    }
    assert(module@.subrange(0, i as int) =~= module@);
    let core = name.len() == 4 && name[0] == 0x43 && name[1] == 0x6f && name[2] == 0x72 && name[3]
        == 0x65;
    assert(core == (name@ =~= seq![0x43u8, 0x6fu8, 0x72u8, 0x65u8]));
    core
}

/// Decides what a governance payload brings about under a configuration.
pub fn handle_governance_payload(config: &ConfigInfo, data: &[u8]) -> (result: Result<
    GuardianSetUpgrade,
    ContractError,
>)
    ensures
        match result {
            Ok(upgrade) => governance_result(config@, data@) == Ok::<
                GuardianSetUpgradeView,
                ContractError,
            >(upgrade@),
            Err(e) => governance_result(config@, data@) == Err::<
                GuardianSetUpgradeView,
                ContractError,
            >(e),
        },
{
    let gov_packet = match GovernancePacket::deserialize(data) {
        Ok(packet) => packet,
        Err(e) => {
            return Err(e);
        },
    };
    if !module_is_core(gov_packet.module.as_slice()) {
        return Err(ContractError::InvalidModule {  });
    }
    if gov_packet.chain != 0 && gov_packet.chain != config.chain_id {
        return Err(ContractError::InvalidGovernanceVaa {  });
    }
    match GovernanceAction::from_code(gov_packet.action) {
        GovernanceAction::GuardianSetUpgrade => vaa_update_guardian_set(
            config,
            gov_packet.payload.as_slice(),
        ),
        GovernanceAction::ContractUpgrade => Err(ContractError::InvalidVAAAction {  }),
        GovernanceAction::SetFee => Err(ContractError::InvalidVAAAction {  }),
        GovernanceAction::TransferFee => Err(ContractError::InvalidVAAAction {  }),
        GovernanceAction::Unknown => Err(ContractError::InvalidVAAAction {  }),
    }
}

/// Parses raw VAA data into a struct and verifies whether it contains
/// sufficient signatures of an active guardian set, i.e. is valid according
/// to the consensus rules.
pub fn parse_and_verify_vaa(state: &ContractState, data: &[u8], block_time: u64) -> (result:
    Result<ParsedVAA, ContractError>)
    ensures
        match result {
            Ok(vaa) => verification_error(state@.guardian_sets, data@, block_time) is None && vaa@
                == parsed_vaa(data@),
            Err(e) => verification_error(state@.guardian_sets, data@, block_time) == Some(e),
        },
{
    let vaa = match ParsedVAA::deserialize(data) {
        Ok(vaa) => vaa,
        Err(e) => {
            return Err(e);
        },
    };
    match verify_vaa(&vaa, data, state.guardian_set(vaa.guardian_set_index), block_time) {
        Ok(_) => Ok(vaa),
        Err(e) => Err(e),
    }
}

/// Decides what a guardian set upgrade brings about under a configuration.
pub fn vaa_update_guardian_set(config: &ConfigInfo, data: &[u8]) -> (result: Result<
    GuardianSetUpgrade,
    ContractError,
>)
    ensures
        match result {
            Ok(upgrade) => upgrade_result(config@, data@) == Ok::<
                GuardianSetUpgradeView,
                ContractError,
            >(upgrade@),
            Err(e) => upgrade_result(config@, data@) == Err::<
                GuardianSetUpgradeView,
                ContractError,
            >(e),
        },
{
    let upgrade = match GuardianSetUpgrade::deserialize(data) {
        Ok(upgrade) => upgrade,
        Err(e) => {
            return Err(e);
        },
    };
    if config.guardian_set_index == u32::MAX || upgrade.new_guardian_set_index
        != config.guardian_set_index + 1 {
        return Err(ContractError::GuardianSetIndexIncreaseError {  });
    }
    Ok(upgrade)
}

/// The answer names the current guardian set of the state: its index and
/// its addresses, in order.
pub open spec fn reports_current_set(s: ContractStateView, res: GuardianSetInfoResponse) -> bool {
    &&& res.guardian_set_index == s.config.guardian_set_index
    &&& res.addresses@.len() == s.guardian_sets[res.guardian_set_index as int].addresses.len()
    &&& forall|i: int|
        0 <= i < res.addresses@.len() ==> (#[trigger] res.addresses@[i])@
            == s.guardian_sets[res.guardian_set_index as int].addresses[i]
}

/// The current guardian set: its index and its addresses.
pub fn query_guardian_set_info(state: &ContractState) -> (res: GuardianSetInfoResponse)
    requires
        state.wf(),
    ensures
        reports_current_set(state@, res),
{
    let guardian_set = &state.guardian_sets[state.config.guardian_set_index as usize];
    let mut addresses: Vec<GuardianAddress> = Vec::new();
    let mut i: usize = 0;
    while i < guardian_set.addresses.len()
        invariant
            i <= guardian_set.addresses@.len(),
            addresses@.len() == i,
            forall|k: int| 0 <= k < i ==> (#[trigger] addresses@[k])@ == guardian_set.addresses@[k]@,
        decreases guardian_set.addresses@.len() - i,
    {
        addresses.push(
            GuardianAddress { bytes: slice_to_vec(guardian_set.addresses[i].bytes.as_slice()) },
        );
        i += 1;
    }
    GuardianSetInfoResponse { guardian_set_index: state.config.guardian_set_index, addresses }
}

/// A canonical address of at most 32 bytes, padded to 32 bytes and written
/// in hexadecimal digits.
pub fn query_address_hex(address: &[u8]) -> (res: GetAddressHexResponse)
    requires
        address@.len() <= 32,
    ensures
        res.hex@ == hex_string(extended_to_32(address@)),
{
    GetAddressHexResponse { hex: hex_encode(extend_address_to_32(address).as_slice()) }
}

/// Answers a query. Nothing is changed and nothing is recorded.
pub fn query(state: &ContractState, msg: QueryMsg) -> (result: Result<QueryResponse, ContractError>)
    requires
        state.wf(),
        msg matches QueryMsg::QueryAddressHex { address } ==> address@.len() <= 32,
    ensures
        match msg {
            QueryMsg::GuardianSetInfo {  } => result matches Ok(QueryResponse::GuardianSetInfo(res))
                && reports_current_set(state@, res),
            QueryMsg::VerifyVAA { vaa, block_time } => match result {
                Ok(QueryResponse::VerifyVAA(res)) => verification_error(
                    state@.guardian_sets,
                    vaa@,
                    block_time,
                ) is None && res@ == parsed_vaa(vaa@),
                Ok(_) => false,
                Err(e) => verification_error(state@.guardian_sets, vaa@, block_time) == Some(e),
            },
            QueryMsg::QueryAddressHex { address } => result matches Ok(
                QueryResponse::AddressHex(res),
            ) && res.hex@ == hex_string(extended_to_32(address@)),
        },
{
    match msg {
        QueryMsg::GuardianSetInfo {  } => Ok(
            QueryResponse::GuardianSetInfo(query_guardian_set_info(state)),
        ),
        QueryMsg::VerifyVAA { vaa, block_time } => {
            match parse_and_verify_vaa(state, vaa.as_slice(), block_time) {
                Ok(parsed) => Ok(QueryResponse::VerifyVAA(VerifyVAAResponse::from_vaa(parsed))),
                Err(e) => Err(e),
            }
        },
        QueryMsg::QueryAddressHex { address } => Ok(
            QueryResponse::AddressHex(query_address_hex(address.as_slice())),
        ),
    }
}

} // verus!
