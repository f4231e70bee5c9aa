//! The quorum verifier: a VAA is accepted when enough guardians of the set
//! it claims have signed its body, in strictly ascending order of their
//! indices.

use crate::crypto::{
    recover_key, recovered_key, recovery_id_is_valid, signature_decodes, signature_is_well_formed,
};
use crate::error::ContractError;
use crate::helpers::{key_matches, keys_equal, PublicKey};
use crate::state::{quorum_of, GuardianSetInfo, GuardianSetView, ParsedVAA, ParsedVAAView};
use vstd::prelude::*;
use vstd::slice::slice_subrange;

verus! {

/// Where the signature block number `i` begins.
pub open spec fn block_offset(i: int) -> int {
    6 + 66 * i
}

/// The guardian index that block `i` names.
pub open spec fn signer_index(data: Seq<u8>, i: int) -> u8 {
    data[block_offset(i)]
}

/// The signature (r, then s) of block `i`.
pub open spec fn signature_of(data: Seq<u8>, i: int) -> Seq<u8> {
    data.subrange(block_offset(i) + 1, block_offset(i) + 65)
}

/// The recovery id of block `i`.
pub open spec fn recovery_id_of(data: Seq<u8>, i: int) -> u8 {
    data[block_offset(i) + 65]
}

/// What is wrong with one signature, if anything: the index must lie above
/// the one before it and inside the guardian set, the signature must decode,
/// a key must be recoverable from it, and the key must be that guardian's.
pub open spec fn signer_error(
    hash: Seq<u8>,
    addresses: Seq<Seq<u8>>,
    last_index: int,
    index: u8,
    signature: Seq<u8>,
    recovery_id: u8,
) -> Option<ContractError> {
    if index <= last_index {
        Some(ContractError::WrongGuardianIndexOrder {  })
    } else if index >= addresses.len() {
        Some(ContractError::TooManySignatures {  })
    } else if !signature_decodes(signature) || recovery_id > 3 {
        Some(ContractError::CannotDecodeSignature {  })
    } else {
        match recovered_key(hash, signature, recovery_id) {
            None => Some(ContractError::CannotRecoverKey {  }),
            Some(key) => if key_matches(key, addresses[index as int]) {
                None
            } else {
                Some(ContractError::GuardianSignatureError {  })
            },
        }
    }
}

/// What is wrong with the signature blocks from number `from` on, read in
/// buffer order, where the block before them named `last_index`: the first
/// fault found, if any.
pub open spec fn signatures_error(
    data: Seq<u8>,
    len_signers: u8,
    hash: Seq<u8>,
    addresses: Seq<Seq<u8>>,
    from: int,
    last_index: int,
) -> Option<ContractError>
    decreases len_signers - from,
{
    if from >= len_signers {
        None
    } else if block_offset(from) + 66 > data.len() {
        Some(ContractError::InvalidVAA {  })
    } else {
        match signer_error(
            hash,
            addresses,
            last_index,
            signer_index(data, from),
            signature_of(data, from),
            recovery_id_of(data, from),
        ) {
            Some(e) => Some(e),
            None => signatures_error(
                data,
                len_signers,
                hash,
                addresses,
                from + 1,
                signer_index(data, from) as int,
            ),
        }
    }
}

/// A guardian set has expired once its expiration time, if it has one, lies
/// in the past.
pub open spec fn expired(guardian_set: GuardianSetView, block_time: u64) -> bool {
    guardian_set.expiration_time != 0 && guardian_set.expiration_time < block_time
}

/// What is wrong with a decoded VAA held against the guardian set that it
/// claims (`None` where the store has no such set), if anything.
pub open spec fn claim_error(
    vaa: ParsedVAAView,
    data: Seq<u8>,
    guardian_set: Option<GuardianSetView>,
    block_time: u64,
) -> Option<ContractError> {
    if vaa.version != 1 {
        Some(ContractError::InvalidVersion {  })
    } else {
        match guardian_set {
            None => Some(ContractError::InvalidGuardianSetIndex {  }),
            Some(set) => if expired(set, block_time) {
                Some(ContractError::GuardianSetExpired {  })
            } else if vaa.len_signers < quorum_of(set.addresses.len()) {
                Some(ContractError::NoQuorum {  })
            } else {
                signatures_error(data, vaa.len_signers, vaa.hash, set.addresses, 0, -1)
            },
        }
    }
}

/// A key is recovered from block `i`, and it is the key of the guardian
/// that the block names.
pub open spec fn signer_is_sound(
    data: Seq<u8>,
    hash: Seq<u8>,
    addresses: Seq<Seq<u8>>,
    i: int,
) -> bool {
    &&& signer_index(data, i) < addresses.len()
    &&& signature_decodes(signature_of(data, i))
    &&& recovery_id_of(data, i) <= 3
    &&& recovered_key(hash, signature_of(data, i), recovery_id_of(data, i)) matches Some(key)
        && key_matches(key, addresses[signer_index(data, i) as int])
}

/// Where the signature blocks pass, the guardian indices they name ascend
/// strictly and start above `last_index`, so that no guardian counts twice,
/// and every block holds the signature of the guardian it names.
pub proof fn lemma_accepted_signers_ascend(
    data: Seq<u8>,
    len_signers: u8,
    hash: Seq<u8>,
    addresses: Seq<Seq<u8>>,
    from: int,
    last_index: int,
)
    requires
        0 <= from,
        signatures_error(data, len_signers, hash, addresses, from, last_index) is None,
    ensures
        forall|i: int| from <= i < len_signers ==> last_index < #[trigger] signer_index(data, i),
        forall|i: int|
            from <= i < len_signers ==> #[trigger] signer_is_sound(data, hash, addresses, i),
        forall|i: int, j: int|
            from <= i < j < len_signers ==> #[trigger] signer_index(data, i) < #[trigger] signer_index(
                data,
                j,
            ),
    decreases len_signers - from,
{
    if from < len_signers {
        lemma_accepted_signers_ascend(
            data,
            len_signers,
            hash,
            addresses,
            from + 1,
            signer_index(data, from) as int,
        );
    }
}

/// What an accepted VAA has: version 1, a guardian set that has not
/// expired, as many signatures as the quorum asks for, each by another
/// guardian of the set, in ascending order.
pub proof fn lemma_accepted_vaa_has_quorum(
    vaa: ParsedVAAView,
    data: Seq<u8>,
    guardian_set: Option<GuardianSetView>,
    block_time: u64,
)
    requires
        claim_error(vaa, data, guardian_set, block_time) is None,
    ensures
        vaa.version == 1,
        guardian_set matches Some(set) && !expired(set, block_time) && vaa.len_signers
            >= quorum_of(set.addresses.len()) && (forall|i: int|
            0 <= i < vaa.len_signers ==> #[trigger] signer_is_sound(
                data,
                vaa.hash,
                set.addresses,
                i,
            )) && (forall|i: int, j: int|
            0 <= i < j < vaa.len_signers ==> #[trigger] signer_index(data, i) < #[trigger] signer_index(
                data,
                j,
            )),
{
    lemma_accepted_signers_ascend(
        data,
        vaa.len_signers,
        vaa.hash,
        guardian_set->Some_0.addresses,
        0,
        -1,
    );
}

/// A verdict on the signature blocks is the verdict on the blocks that are
/// left once a first part of them has passed.
pub proof fn lemma_signatures_error_resumes(
    data: Seq<u8>,
    len_signers: u8,
    hash: Seq<u8>,
    addresses: Seq<Seq<u8>>,
    from: int,
    last_index: int,
    passed: u8,
)
    requires
        0 <= from < passed <= len_signers,
        signatures_error(data, passed, hash, addresses, from, last_index) is None,
    ensures
        signatures_error(data, len_signers, hash, addresses, from, last_index) == signatures_error(
            data,
            len_signers,
            hash,
            addresses,
            passed as int,
            signer_index(data, passed - 1) as int,
        ),
    decreases passed - from,
{
    if from + 1 < passed {
        lemma_signatures_error_resumes(
            data,
            len_signers,
            hash,
            addresses,
            from + 1,
            signer_index(data, from) as int,
            passed,
        );
    }
}

/// A signature block that names an index no higher than the block before
/// it is rejected for the order of the indices, whatever its signature
/// holds, once the blocks before it have passed.
pub proof fn lemma_descending_index_is_rejected(
    data: Seq<u8>,
    len_signers: u8,
    hash: Seq<u8>,
    addresses: Seq<Seq<u8>>,
    passed: u8,
)
    requires
        0 < passed < len_signers,
        signatures_error(data, passed, hash, addresses, 0, -1) is None,
        block_offset(passed as int) + 66 <= data.len(),
        signer_index(data, passed as int) <= signer_index(data, passed - 1),
    ensures
        signatures_error(data, len_signers, hash, addresses, 0, -1) == Some(
            ContractError::WrongGuardianIndexOrder {  },
        ),
{
    lemma_signatures_error_resumes(data, len_signers, hash, addresses, 0, -1, passed);
}

/// Within its grace period a retired guardian set verifies what it verified
/// while it was current; a VAA of version 1 that claims it later is rejected
/// because the set has expired.
pub proof fn lemma_expiration_decides(
    vaa: ParsedVAAView,
    data: Seq<u8>,
    addresses: Seq<Seq<u8>>,
    expiration_time: u64,
    block_time: u64,
)
    ensures
        block_time <= expiration_time || expiration_time == 0 ==> claim_error(
            vaa,
            data,
            Some(GuardianSetView { addresses, expiration_time }),
            block_time,
        ) == claim_error(
            vaa,
            data,
            Some(GuardianSetView { addresses, expiration_time: 0 }),
            block_time,
        ),
        vaa.version == 1 && expiration_time != 0 && block_time > expiration_time ==> claim_error(
            vaa,
            data,
            Some(GuardianSetView { addresses, expiration_time }),
            block_time,
        ) == Some(ContractError::GuardianSetExpired {  }),
{
}

/// Checks one signature against the guardian set.
pub fn verify_signer(
    hash: &[u8],
    guardian_set: &GuardianSetInfo,
    last_index: i32,
    index: u8,
    signature: &[u8],
    recovery_id: u8,
) -> (result: Result<(), ContractError>)
    ensures
        match result {
            Ok(_) => signer_error(
                hash@,
                guardian_set@.addresses,
                last_index as int,
                index,
                signature@,
                recovery_id,
            ) is None,
            Err(e) => signer_error(
                hash@,
                guardian_set@.addresses,
                last_index as int,
                index,
                signature@,
                recovery_id,
            ) == Some(e),
        },
{
    if index as i32 <= last_index {
        return Err(ContractError::WrongGuardianIndexOrder {  });
    }
    let index = index as usize;
    if index >= guardian_set.addresses.len() {
        return Err(ContractError::TooManySignatures {  });
    }
    if !signature_is_well_formed(signature) || !recovery_id_is_valid(recovery_id) {
        return Err(ContractError::CannotDecodeSignature {  });
    }
    let verify_key = match recover_key(hash, signature, recovery_id) {
        Some(sec1) => PublicKey { sec1 },
        None => {
            return Err(ContractError::CannotRecoverKey {  });
        },
    };
    if !keys_equal(&verify_key, &guardian_set.addresses[index]) {
        return Err(ContractError::GuardianSignatureError {  });
    }
    Ok(())
}

/// Checks the first `len_signers` signature blocks of `data`, in buffer
/// order, against the guardian set.
pub fn verify_signatures(
    data: &[u8],
    len_signers: u8,
    hash: &[u8],
    guardian_set: &GuardianSetInfo,
) -> (result: Result<(), ContractError>)
    ensures
        match result {
            Ok(_) => signatures_error(
                data@,
                len_signers,
                hash@,
                guardian_set@.addresses,
                0,
                -1,
            ) is None,
            Err(e) => signatures_error(data@, len_signers, hash@, guardian_set@.addresses, 0, -1)
                == Some(e),
        },
{
    let mut last_index: i32 = -1;
    let mut pos: usize = ParsedVAA::HEADER_LEN;
    let mut i: u8 = 0;
    while i < len_signers
        invariant
            i <= len_signers,
            pos == block_offset(i as int),
            -1 <= last_index < 256,
            signatures_error(data@, len_signers, hash@, guardian_set@.addresses, 0, -1)
                == signatures_error(
                data@,
                len_signers,
                hash@,
                guardian_set@.addresses,
                i as int,
                last_index as int,
            ),
        decreases len_signers - i,
    {
        if pos + ParsedVAA::SIGNATURE_LEN > data.len() {
            return Err(ContractError::InvalidVAA {  });
        }
        let index = data[pos];
        let signature = slice_subrange(
            data,
            pos + ParsedVAA::SIG_DATA_POS,
            pos + ParsedVAA::SIG_DATA_POS + ParsedVAA::SIG_DATA_LEN,
        );
        let recovery_id = data[pos + ParsedVAA::SIG_RECOVERY_POS];
        match verify_signer(hash, guardian_set, last_index, index, signature, recovery_id) {
            Ok(_) => {},
            Err(e) => {
                return Err(e);
            },
        }
        last_index = index as i32;
        pos += ParsedVAA::SIGNATURE_LEN;
        i += 1;
    }
    Ok(())
}

/// Verifies a decoded VAA against the guardian set that it claims; `data` is
/// the buffer it was decoded from, which holds the signatures. `None` stands
/// for a guardian set that the store does not hold.
pub fn verify_vaa(
    vaa: &ParsedVAA,
    data: &[u8],
    guardian_set: Option<&GuardianSetInfo>,
    block_time: u64,
) -> (result: Result<(), ContractError>)
    ensures
        match result {
            Ok(_) => claim_error(
                vaa@,
                data@,
                match guardian_set {
                    Some(set) => Some(set@),
                    None => None,
                },
                block_time,
            ) is None,
            Err(e) => claim_error(
                vaa@,
                data@,
                match guardian_set {
                    Some(set) => Some(set@),
                    None => None,
                },
                block_time,
            ) == Some(e),
        },
{
    if vaa.version != 1 {
        return Err(ContractError::InvalidVersion {  });
    }
    // first check guardian set index exist
    let guardian_set = match guardian_set {
        Some(set) => set,
        None => {
            return Err(ContractError::InvalidGuardianSetIndex {  });
        },
    };
    if guardian_set.expiration_time != 0 && guardian_set.expiration_time < block_time {
        return Err(ContractError::GuardianSetExpired {  });
    }
    if (vaa.len_signers as usize) < guardian_set.quorum() {
        return Err(ContractError::NoQuorum {  });
    }
    // Verify guardian signatures
    verify_signatures(data, vaa.len_signers, vaa.hash.as_slice(), guardian_set)
}

} // verus!
