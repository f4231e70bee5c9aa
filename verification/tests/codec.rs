use sha3::{Digest, Keccak256};
use wormhole::byte_utils::{
    extend_address_to_32, get_bytes20, get_bytes32, get_u16, get_u32, get_u64, get_u8,
};
use wormhole::contract::{module_is_core, query_address_hex};
use wormhole::error::ContractError;
use wormhole::helpers::{bytes_equal, digest_matches, keys_equal, PublicKey};
use wormhole::state::{
    ContractUpgrade, GovernanceAction, GovernancePacket, GuardianAddress, GuardianSetInfo,
    GuardianSetUpgrade, ParsedVAA,
};

fn sample_body(payload: &[u8]) -> Vec<u8> {
    let mut body = Vec::new();
    body.extend_from_slice(&0x0102_0304u32.to_be_bytes());
    body.extend_from_slice(&0x0a0b_0c0du32.to_be_bytes());
    body.extend_from_slice(&0x1234u16.to_be_bytes());
    let mut emitter = [0u8; 32];
    for (i, byte) in emitter.iter_mut().enumerate() {
        *byte = 0xa0 + i as u8;
    }
    body.extend_from_slice(&emitter);
    body.extend_from_slice(&0x1122_3344_5566_7788u64.to_be_bytes());
    body.push(0x20);
    body.extend_from_slice(payload);
    body
}

fn sample_vaa(version: u8, guardian_set_index: u32, signers: u8, body: &[u8]) -> Vec<u8> {
    let mut data = vec![version];
    data.extend_from_slice(&guardian_set_index.to_be_bytes());
    data.push(signers);
    for i in 0..signers {
        let mut block = vec![i];
        block.extend_from_slice(&[0x55u8; 65]);
        data.extend_from_slice(&block);
    }
    data.extend_from_slice(body);
    data
}

fn guardian_set(n: usize) -> GuardianSetInfo {
    let mut addresses = Vec::new();
    for i in 0..n {
        addresses.push(GuardianAddress { bytes: vec![i as u8; 20] });
    }
    GuardianSetInfo { addresses, expiration_time: 0 }
}

#[test]
fn reads_big_endian_integers() {
    let data: Vec<u8> = vec![0x01, 0x02, 0x03, 0x04, 0x05, 0x06, 0x07, 0x08, 0x09, 0xff];
    assert_eq!(get_u8(&data, 0), 0x01);
    assert_eq!(get_u8(&data, 9), 0xff);
    assert_eq!(get_u16(&data, 0), 0x0102);
    assert_eq!(get_u16(&data, 8), 0x09ff);
    assert_eq!(get_u32(&data, 1), 0x0203_0405);
    assert_eq!(get_u32(&data, 6), 0x0708_09ff);
    assert_eq!(get_u64(&data, 0), 0x0102_0304_0506_0708);
    assert_eq!(get_u64(&data, 2), 0x0304_0506_0708_09ff);
}

#[test]
fn reads_the_largest_integers() {
    let data = [0xffu8; 8];
    assert_eq!(get_u16(&data, 0), u16::MAX);
    assert_eq!(get_u32(&data, 0), u32::MAX);
    assert_eq!(get_u64(&data, 0), u64::MAX);
}

#[test]
fn reads_fixed_length_slices() {
    let data: Vec<u8> = (0u8..40).collect();
    assert_eq!(get_bytes20(&data, 3), &data[3..23]);
    assert_eq!(get_bytes32(&data, 8), &data[8..40]);
    assert_eq!(get_bytes32(&data, 0), &data[0..32]);
}

#[test]
fn extends_an_address_with_leading_zeros() {
    let padded = extend_address_to_32(&[0xab, 0xcd, 0xef]);
    let mut expected = vec![0u8; 29];
    expected.extend_from_slice(&[0xab, 0xcd, 0xef]);
    assert_eq!(padded, expected);
    assert_eq!(extend_address_to_32(&[]), vec![0u8; 32]);
    let full: Vec<u8> = (1u8..=32).collect();
    assert_eq!(extend_address_to_32(&full), full);
}

#[test]
fn address_hex_is_lower_case_and_padded() {
    let res = query_address_hex(&[0xAB, 0xCD, 0x0F]);
    let mut expected = "0".repeat(58);
    expected.push_str("abcd0f");
    assert_eq!(res.hex, expected);
    assert_eq!(res.hex.len(), 64);
}

#[test]
fn guardian_address_from_hex() {
    let address = GuardianAddress::from("7E5f4552091a69125d5dfcb7b8c2659029395bdf");
    assert_eq!(
        address.bytes,
        vec![
            0x7e, 0x5f, 0x45, 0x52, 0x09, 0x1a, 0x69, 0x12, 0x5d, 0x5d, 0xfc, 0xb7, 0xb8, 0xc2,
            0x65, 0x90, 0x29, 0x39, 0x5b, 0xdf
        ]
    );
    assert_eq!(GuardianAddress::from("").bytes, Vec::<u8>::new());
}

#[test]
fn deserialize_recovers_the_fields() {
    let payload = [0xde, 0xad, 0xbe, 0xef];
    let body = sample_body(&payload);
    let data = sample_vaa(1, 0x0000_0102, 2, &body);
    let vaa = ParsedVAA::deserialize(&data).unwrap();
    assert_eq!(vaa.version, 1);
    assert_eq!(vaa.guardian_set_index, 0x102);
    assert_eq!(vaa.len_signers, 2);
    assert_eq!(vaa.timestamp, 0x0102_0304);
    assert_eq!(vaa.nonce, 0x0a0b_0c0d);
    assert_eq!(vaa.emitter_chain, 0x1234);
    assert_eq!(vaa.emitter_address, body[10..42].to_vec());
    assert_eq!(vaa.emitter_address[0], 0xa0);
    assert_eq!(vaa.emitter_address[31], 0xbf);
    assert_eq!(vaa.sequence, 0x1122_3344_5566_7788);
    assert_eq!(vaa.consistency_level, 0x20);
    assert_eq!(vaa.payload, payload.to_vec());
}

#[test]
fn deserialize_hashes_the_body_twice() {
    let body = sample_body(&[1, 2, 3]);
    let data = sample_vaa(1, 0, 3, &body);
    let vaa = ParsedVAA::deserialize(&data).unwrap();
    let once = Keccak256::digest(&body);
    let twice = Keccak256::digest(once);
    assert_eq!(vaa.hash, twice.to_vec());
    assert_ne!(vaa.hash, once.to_vec());
    assert_eq!(vaa.hash.len(), 32);
}

#[test]
fn deserialize_knows_the_digest_of_a_fixed_body() {
    // The body is 51 zero bytes.
    let data = sample_vaa(1, 0, 0, &[0u8; 51]);
    let vaa = ParsedVAA::deserialize(&data).unwrap();
    let expected = Keccak256::digest(Keccak256::digest([0u8; 51]));
    assert_eq!(vaa.hash, expected.to_vec());
    assert_ne!(vaa.hash, vec![0u8; 51]);
    assert_eq!(vaa.payload, Vec::<u8>::new());
    assert_eq!(vaa.timestamp, 0);
}

#[test]
fn deserialize_takes_a_body_without_payload() {
    let body = sample_body(&[]);
    assert_eq!(body.len(), 51);
    let data = sample_vaa(7, 9, 1, &body);
    assert_eq!(data.len(), 6 + 66 + 51);
    let vaa = ParsedVAA::deserialize(&data).unwrap();
    assert_eq!(vaa.version, 7);
    assert_eq!(vaa.guardian_set_index, 9);
    assert!(vaa.payload.is_empty());
}

#[test]
fn deserialize_rejects_truncated_buffers() {
    let body = sample_body(&[]);
    let data = sample_vaa(1, 0, 1, &body);
    for len in 0..data.len() {
        assert_eq!(
            ParsedVAA::deserialize(&data[..len]),
            Err(ContractError::InvalidVAA {}),
            "length {}",
            len
        );
    }
    assert!(ParsedVAA::deserialize(&data).is_ok());
}

#[test]
fn deserialize_rejects_a_missing_body() {
    // The header announces two signature blocks; nothing follows them.
    let data = sample_vaa(1, 0, 2, &[]);
    assert_eq!(data.len(), 6 + 2 * 66);
    assert_eq!(ParsedVAA::deserialize(&data), Err(ContractError::InvalidVAA {}));
    assert_eq!(ParsedVAA::deserialize(&[]), Err(ContractError::InvalidVAA {}));
    assert_eq!(ParsedVAA::deserialize(&[1, 0, 0, 0, 0]), Err(ContractError::InvalidVAA {}));
}

#[test]
fn deserialize_round_trip() {
    let body = sample_body(&[9, 8, 7, 6, 5]);
    let data = sample_vaa(1, 77, 4, &body);
    let vaa = ParsedVAA::deserialize(&data).unwrap();
    // Encode the fields again, around the signature blocks as they stand.
    let mut again = vec![vaa.version];
    again.extend_from_slice(&vaa.guardian_set_index.to_be_bytes());
    again.push(vaa.len_signers);
    again.extend_from_slice(&data[6..6 + 66 * 4]);
    again.extend_from_slice(&vaa.timestamp.to_be_bytes());
    again.extend_from_slice(&vaa.nonce.to_be_bytes());
    again.extend_from_slice(&vaa.emitter_chain.to_be_bytes());
    again.extend_from_slice(&vaa.emitter_address);
    again.extend_from_slice(&vaa.sequence.to_be_bytes());
    again.push(vaa.consistency_level);
    again.extend_from_slice(&vaa.payload);
    assert_eq!(again, data);
    assert_eq!(ParsedVAA::deserialize(&again).unwrap(), vaa);
}

#[test]
fn layout_constants() {
    assert_eq!(ParsedVAA::HEADER_LEN, 6);
    assert_eq!(ParsedVAA::SIGNATURE_LEN, 66);
    assert_eq!(ParsedVAA::GUARDIAN_SET_INDEX_POS, 1);
    assert_eq!(ParsedVAA::LEN_SIGNER_POS, 5);
    assert_eq!(ParsedVAA::VAA_NONCE_POS, 4);
    assert_eq!(ParsedVAA::VAA_EMITTER_CHAIN_POS, 8);
    assert_eq!(ParsedVAA::VAA_EMITTER_ADDRESS_POS, 10);
    assert_eq!(ParsedVAA::VAA_SEQUENCE_POS, 42);
    assert_eq!(ParsedVAA::VAA_CONSISTENCY_LEVEL_POS, 50);
    assert_eq!(ParsedVAA::VAA_PAYLOAD_POS, 51);
    assert_eq!(ParsedVAA::SIG_DATA_POS, 1);
    assert_eq!(ParsedVAA::SIG_DATA_LEN, 64);
    assert_eq!(ParsedVAA::SIG_RECOVERY_POS, 65);
}

#[test]
fn quorum_examples() {
    assert_eq!(guardian_set(0).quorum(), 0);
    assert_eq!(guardian_set(1).quorum(), 1);
    assert_eq!(guardian_set(2).quorum(), 2);
    assert_eq!(guardian_set(3).quorum(), 3);
    assert_eq!(guardian_set(4).quorum(), 3);
    assert_eq!(guardian_set(5).quorum(), 4);
    assert_eq!(guardian_set(6).quorum(), 5);
    assert_eq!(guardian_set(7).quorum(), 5);
    assert_eq!(guardian_set(13).quorum(), 9);
    assert_eq!(guardian_set(19).quorum(), 13);
    assert_eq!(guardian_set(20).quorum(), 14);
}

#[test]
fn quorum_follows_the_formula_and_never_falls() {
    let mut last = 0;
    for n in 1usize..=255 {
        let q = guardian_set(n).quorum();
        assert_eq!(q, ((n * 10 / 3) * 2) / 10 + 1);
        assert!(q >= last);
        assert!(q <= n);
        assert!(3 * q > 2 * n);
        last = q;
    }
}

#[test]
fn retire_sets_the_expiration_time() {
    let mut set = guardian_set(3);
    set.retire(1_000, 86_400);
    assert_eq!(set.expiration_time, 87_400);
    assert_eq!(set.addresses, guardian_set(3).addresses);
    set.retire(u64::MAX - 5, 5);
    assert_eq!(set.expiration_time, u64::MAX);
}

#[test]
fn governance_packet_fields() {
    let mut data = vec![0u8; 28];
    data.extend_from_slice(b"Core");
    data.push(2);
    data.extend_from_slice(&[0x00, 0x12]);
    data.extend_from_slice(&[7, 8, 9]);
    let packet = GovernancePacket::deserialize(&data).unwrap();
    assert_eq!(packet.module, data[0..32].to_vec());
    assert_eq!(packet.action, 2);
    assert_eq!(packet.chain, 0x12);
    assert_eq!(packet.payload, vec![7, 8, 9]);

    let packet = GovernancePacket::deserialize(&data[..35]).unwrap();
    assert!(packet.payload.is_empty());
    assert_eq!(packet.chain, 18);
}

#[test]
fn governance_packet_rejects_short_buffers() {
    let data = [0u8; 35];
    for len in 0..35 {
        assert_eq!(
            GovernancePacket::deserialize(&data[..len]),
            Err(ContractError::InvalidVAA {})
        );
    }
}

#[test]
fn contract_upgrade_fields() {
    let mut data = vec![0xeeu8; 24];
    data.extend_from_slice(&0x0000_0000_0000_04d2u64.to_be_bytes());
    assert_eq!(
        ContractUpgrade::deserialize(&data),
        Ok(ContractUpgrade { new_contract: 1234 })
    );
    data.extend_from_slice(&[1, 2, 3]);
    assert_eq!(ContractUpgrade::deserialize(&data).unwrap().new_contract, 1234);
    assert_eq!(
        ContractUpgrade::deserialize(&data[..31]),
        Err(ContractError::InvalidVAA {})
    );
    assert_eq!(ContractUpgrade::deserialize(&[]), Err(ContractError::InvalidVAA {}));
}

#[test]
fn guardian_set_upgrade_fields() {
    let mut data = vec![0, 0, 0, 3, 2];
    data.extend_from_slice(&[0x11u8; 20]);
    data.extend_from_slice(&[0x22u8; 20]);
    let upgrade = GuardianSetUpgrade::deserialize(&data).unwrap();
    assert_eq!(upgrade.new_guardian_set_index, 3);
    assert_eq!(upgrade.new_guardian_set.expiration_time, 0);
    assert_eq!(
        upgrade.new_guardian_set.addresses,
        vec![
            GuardianAddress { bytes: vec![0x11; 20] },
            GuardianAddress { bytes: vec![0x22; 20] }
        ]
    );
    // Bytes behind the last address are not looked at.
    data.push(0xff);
    assert_eq!(GuardianSetUpgrade::deserialize(&data).unwrap(), upgrade);
}

#[test]
fn guardian_set_upgrade_without_guardians() {
    let upgrade = GuardianSetUpgrade::deserialize(&[0x01, 0x00, 0x00, 0x00, 0]).unwrap();
    assert_eq!(upgrade.new_guardian_set_index, 0x0100_0000);
    assert!(upgrade.new_guardian_set.addresses.is_empty());
    assert_eq!(upgrade.new_guardian_set.quorum(), 0);
}

#[test]
fn guardian_set_upgrade_rejects_truncated_buffers() {
    let mut data = vec![0, 0, 0, 1, 2];
    data.extend_from_slice(&[0x11u8; 20]);
    data.extend_from_slice(&[0x22u8; 20]);
    for len in 0..data.len() {
        assert_eq!(
            GuardianSetUpgrade::deserialize(&data[..len]),
            Err(ContractError::InvalidVAA {}),
            "length {}",
            len
        );
    }
}

#[test]
fn module_name_without_padding_must_read_core() {
    let mut left = vec![0u8; 28];
    left.extend_from_slice(b"Core");
    assert!(module_is_core(&left));
    let mut right = b"Core".to_vec();
    right.extend_from_slice(&[0u8; 28]);
    assert!(module_is_core(&right));
    let mut spread = vec![0u8; 32];
    spread[1] = b'C';
    spread[9] = b'o';
    spread[10] = b'r';
    spread[31] = b'e';
    assert!(module_is_core(&spread));
    assert!(module_is_core(b"Core"));

    let mut other = vec![0u8; 21];
    other.extend_from_slice(b"TokenBridge");
    assert!(!module_is_core(&other));
    let mut lower = vec![0u8; 28];
    lower.extend_from_slice(b"core");
    assert!(!module_is_core(&lower));
    let mut longer = vec![0u8; 27];
    longer.extend_from_slice(b"Cores");
    assert!(!module_is_core(&longer));
    assert!(!module_is_core(&[0u8; 32]));
    assert!(!module_is_core(&[]));
    // Bytes that are no text do not pass either.
    let mut invalid = vec![0xffu8; 28];
    invalid.extend_from_slice(b"Core");
    assert!(!module_is_core(&invalid));
}

#[test]
fn bytes_equal_compares_length_first() {
    assert!(bytes_equal(&[], &[]));
    assert!(bytes_equal(&[1, 2, 3], &[1, 2, 3]));
    assert!(!bytes_equal(&[1, 2, 3], &[1, 2]));
    assert!(!bytes_equal(&[1, 2], &[1, 2, 3]));
    assert!(!bytes_equal(&[1, 2, 3], &[1, 2, 4]));
    assert!(!bytes_equal(&[0, 2, 3], &[1, 2, 3]));
}

#[test]
fn digest_matches_the_low_twenty_bytes() {
    let digest: Vec<u8> = (0u8..32).collect();
    assert!(digest_matches(&digest, &GuardianAddress { bytes: (12u8..32).collect() }));
    assert!(!digest_matches(&digest, &GuardianAddress { bytes: (11u8..31).collect() }));
    assert!(!digest_matches(&digest, &GuardianAddress { bytes: (0u8..20).collect() }));
    assert!(!digest_matches(&digest, &GuardianAddress { bytes: (12u8..31).collect() }));
    assert!(!digest_matches(&digest[..11], &GuardianAddress { bytes: vec![] }));
    assert!(digest_matches(&digest[..12], &GuardianAddress { bytes: vec![] }));
}

#[test]
fn keys_equal_derives_the_address_of_a_known_key() {
    // The generator of the curve, compressed: the public key of the secret key 1.
    let sec1 =
        hex::decode("0279be667ef9dcbbac55a06295ce870b07029bfcdb2dce28d959f2815b16f81798").unwrap();
    let key = PublicKey { sec1 };
    assert!(keys_equal(&key, &GuardianAddress::from("7e5f4552091a69125d5dfcb7b8c2659029395bdf")));
    assert!(!keys_equal(&key, &GuardianAddress::from("7e5f4552091a69125d5dfcb7b8c2659029395bde")));
    assert!(!keys_equal(&key, &GuardianAddress::from("7e5f4552091a69125d5dfcb7b8c2659029395b")));
    assert!(!keys_equal(&key, &GuardianAddress { bytes: key.sec1[13..].to_vec() }));
}

#[test]
fn keys_equal_takes_the_uncompressed_form_too() {
    let sec1 = hex::decode(
        "0479be667ef9dcbbac55a06295ce870b07029bfcdb2dce28d959f2815b16f81798\
         483ada7726a3c4655da4fbfc0e1108a8fd17b448a68554199c47d08ffb10d4b8",
    )
    .unwrap();
    let key = PublicKey { sec1 };
    assert!(keys_equal(&key, &GuardianAddress::from("7e5f4552091a69125d5dfcb7b8c2659029395bdf")));
}

#[test]
fn keys_equal_rejects_what_is_no_point() {
    let address = GuardianAddress::from("7e5f4552091a69125d5dfcb7b8c2659029395bdf");
    assert!(!keys_equal(&PublicKey { sec1: vec![] }, &address));
    assert!(!keys_equal(&PublicKey { sec1: vec![0x02; 5] }, &address));
    assert!(!keys_equal(&PublicKey { sec1: vec![0x07; 33] }, &address));
    // The modulus of the field is no coordinate.
    let out_of_field =
        hex::decode("02fffffffffffffffffffffffffffffffffffffffffffffffffffffffefffffc2f").unwrap();
    assert!(!keys_equal(&PublicKey { sec1: out_of_field }, &address));
}

#[test]
fn deserialize_with_hash_takes_the_digest_as_given() {
    let body = sample_body(&[4, 5, 6]);
    let data = sample_vaa(1, 3, 1, &body);
    let vaa = ParsedVAA::deserialize_with_hash(&data, vec![0xab; 32]).unwrap();
    assert_eq!(vaa.hash, vec![0xab; 32]);
    let mut expected = ParsedVAA::deserialize(&data).unwrap();
    assert_ne!(vaa, expected);
    expected.hash = vec![0xab; 32];
    assert_eq!(vaa, expected);
    assert_eq!(
        ParsedVAA::deserialize_with_hash(&data[..data.len() - 4], vec![0xab; 32]),
        Err(ContractError::InvalidVAA {})
    );
    assert_eq!(
        ParsedVAA::deserialize_with_hash(&[], vec![]),
        Err(ContractError::InvalidVAA {})
    );
}

#[test]
fn governance_actions_by_code() {
    assert_eq!(GovernanceAction::from_code(0), GovernanceAction::Unknown);
    assert_eq!(GovernanceAction::from_code(1), GovernanceAction::ContractUpgrade);
    assert_eq!(GovernanceAction::from_code(2), GovernanceAction::GuardianSetUpgrade);
    assert_eq!(GovernanceAction::from_code(3), GovernanceAction::SetFee);
    assert_eq!(GovernanceAction::from_code(4), GovernanceAction::TransferFee);
    for code in 5u8..=255 {
        assert_eq!(GovernanceAction::from_code(code), GovernanceAction::Unknown);
    }
}

#[test]
fn errors_are_named() {
    assert_eq!(ContractError::Std { msg: "out of gas".to_string() }.message(), "out of gas");
    assert_eq!(ContractError::Unauthorized {}.message(), "Unauthorized");
    assert_eq!(ContractError::InvalidVersion {}.message(), "InvalidVersion");
    assert_eq!(ContractError::InvalidGuardianSetIndex {}.message(), "InvalidGuardianSetIndex");
    assert_eq!(ContractError::GuardianSetExpired {}.message(), "GuardianSetExpired");
    assert_eq!(ContractError::NoQuorum {}.message(), "NoQuorum");
    assert_eq!(ContractError::WrongGuardianIndexOrder {}.message(), "WrongGuardianIndexOrder");
    assert_eq!(ContractError::CannotDecodeSignature {}.message(), "CannotDecodeSignature");
    assert_eq!(ContractError::CannotRecoverKey {}.message(), "CannotRecoverKey");
    assert_eq!(ContractError::GuardianSignatureError {}.message(), "GuardianSignatureError");
    assert_eq!(ContractError::InvalidVAAAction {}.message(), "InvalidVAAAction");
    assert_eq!(ContractError::NotCurrentGuardianSet {}.message(), "NotCurrentGuardianSet");
    assert_eq!(ContractError::InvalidModule {}.message(), "InvalidModule");
    assert_eq!(ContractError::InvalidGovernanceVaa {}.message(), "InvalidGovernanceVaa");
    assert_eq!(
        ContractError::GuardianSetIndexIncreaseError {}.message(),
        "GuardianSetIndexIncreaseError"
    );
    assert_eq!(ContractError::VaaAlreadyExecuted {}.message(), "VaaAlreadyExecuted");
    assert_eq!(ContractError::PermissionDenied {}.message(), "PermissionDenied");
    assert_eq!(ContractError::TooManySignatures {}.message(), "TooManySignatures");
    assert_eq!(ContractError::InvalidVAA {}.message(), "InvalidVAA");
}
