//! The typed failures of the library. None is recovered from inside it.

use vstd::prelude::*;

verus! {

#[derive(Debug, Clone, PartialEq, Eq)]
pub enum ContractError {
    /// A failure of the host environment, carried through as text.
    Std { msg: String },
    Unauthorized {},
    /// Invalid VAA version
    InvalidVersion {},
    /// Guardian set with this index does not exist
    InvalidGuardianSetIndex {},
    /// Guardian set expiration date is in the past
    GuardianSetExpired {},
    /// Not enough signers on the VAA
    NoQuorum {},
    /// Wrong guardian index order, order must be ascending
    WrongGuardianIndexOrder {},
    /// Some problem with signature decoding from bytes
    CannotDecodeSignature {},
    /// Some problem with public key recovery from the signature
    CannotRecoverKey {},
    /// Recovered pubkey from signature does not match guardian address
    GuardianSignatureError {},
    /// VAA action code not recognized
    InvalidVAAAction {},
    /// VAA guardian set is not current
    NotCurrentGuardianSet {},
    /// Not a valid module
    InvalidModule {},
    /// Wrong governance vaa chain
    InvalidGovernanceVaa {},
    /// Guardian set must increase in steps of 1
    GuardianSetIndexIncreaseError {},
    /// VAA was already executed
    VaaAlreadyExecuted {},
    /// Message sender not permitted to execute this operation
    PermissionDenied {},
    /// More signatures than active guardians found
    TooManySignatures {},
    /// Generic error when there is a problem with VAA structure
    InvalidVAA {},
}

/// The text that names an error: for a failure of the host its own text,
/// for every other error its name.
pub open spec fn error_text(e: ContractError) -> Seq<char> {
    match e {
        ContractError::Std { msg } => msg@,
        ContractError::Unauthorized {  } => "Unauthorized"@,
        ContractError::InvalidVersion {  } => "InvalidVersion"@,
        ContractError::InvalidGuardianSetIndex {  } => "InvalidGuardianSetIndex"@,
        ContractError::GuardianSetExpired {  } => "GuardianSetExpired"@,
        ContractError::NoQuorum {  } => "NoQuorum"@,
        ContractError::WrongGuardianIndexOrder {  } => "WrongGuardianIndexOrder"@,
        ContractError::CannotDecodeSignature {  } => "CannotDecodeSignature"@,
        ContractError::CannotRecoverKey {  } => "CannotRecoverKey"@,
        ContractError::GuardianSignatureError {  } => "GuardianSignatureError"@,
        ContractError::InvalidVAAAction {  } => "InvalidVAAAction"@,
        ContractError::NotCurrentGuardianSet {  } => "NotCurrentGuardianSet"@,
        ContractError::InvalidModule {  } => "InvalidModule"@,
        ContractError::InvalidGovernanceVaa {  } => "InvalidGovernanceVaa"@,
        ContractError::GuardianSetIndexIncreaseError {  } => "GuardianSetIndexIncreaseError"@,
        ContractError::VaaAlreadyExecuted {  } => "VaaAlreadyExecuted"@,
        ContractError::PermissionDenied {  } => "PermissionDenied"@,
        ContractError::TooManySignatures {  } => "TooManySignatures"@,
        ContractError::InvalidVAA {  } => "InvalidVAA"@,
    }
}

impl ContractError {
    /// The text that names this error.
    pub fn message(&self) -> (text: String)
        ensures
            text@ == error_text(*self),
    {
        match self {
            ContractError::Std { msg } => msg.clone(),
            ContractError::Unauthorized {  } => "Unauthorized".to_owned(),
            ContractError::InvalidVersion {  } => "InvalidVersion".to_owned(),
            ContractError::InvalidGuardianSetIndex {  } => "InvalidGuardianSetIndex".to_owned(),
            ContractError::GuardianSetExpired {  } => "GuardianSetExpired".to_owned(),
            ContractError::NoQuorum {  } => "NoQuorum".to_owned(),
            ContractError::WrongGuardianIndexOrder {  } => "WrongGuardianIndexOrder".to_owned(),
            ContractError::CannotDecodeSignature {  } => "CannotDecodeSignature".to_owned(),
            ContractError::CannotRecoverKey {  } => "CannotRecoverKey".to_owned(),
            ContractError::GuardianSignatureError {  } => "GuardianSignatureError".to_owned(),
            ContractError::InvalidVAAAction {  } => "InvalidVAAAction".to_owned(),
            ContractError::NotCurrentGuardianSet {  } => "NotCurrentGuardianSet".to_owned(),
            ContractError::InvalidModule {  } => "InvalidModule".to_owned(),
            ContractError::InvalidGovernanceVaa {  } => "InvalidGovernanceVaa".to_owned(),
            ContractError::GuardianSetIndexIncreaseError {  } => "GuardianSetIndexIncreaseError".to_owned(),
            ContractError::VaaAlreadyExecuted {  } => "VaaAlreadyExecuted".to_owned(),
            ContractError::PermissionDenied {  } => "PermissionDenied".to_owned(),
            ContractError::TooManySignatures {  } => "TooManySignatures".to_owned(),
            ContractError::InvalidVAA {  } => "InvalidVAA".to_owned(),
        }
    }
}

} // verus!
