use vstd::prelude::*;
use cosmwasm_std::StdError;

verus! {

/// The standard error of the contract framework, carried through the library
/// without being looked into.
#[verifier::external_type_specification]
#[verifier::external_body]
pub struct ExStdError(StdError);

/// Why a request to the contract was refused.
#[derive(Debug)]
pub enum ContractError {
    /// An error of the contract framework: a failed address check, a message
    /// that could not be decoded, a missing record, a failed encoding.
    Std(StdError),
    /// The sender is not the owner of the contract.
    Unauthorized {},
    /// Staking is switched off.
    Disabled {},
    /// The NFT was delivered by a contract other than the configured collection.
    InvalidCw721 {},
    /// The requested staking operation does not apply (no such stake, or an
    /// unknown hook message).
    InvalidStaking {},
    /// The lock period of the token has not passed yet.
    PendingUnStaking {},
    /// The stored contract name is not this contract's name.
    CannotMigrate { previous_contract: String },
}

/// Why a query found nothing to answer.
#[derive(Debug)]
pub enum QueryError {
    /// No configuration is stored.
    ConfigNotFound {},
    /// No staking record is stored under the address.
    StakingNotFound { address: String },
}

} // verus!
