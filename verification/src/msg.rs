use vstd::prelude::*;
use cosmwasm_std::StdError;
use crate::state::{Config, StakingInfo};

verus! {

/// Who sent the request.
#[derive(Debug)]
pub struct MessageInfo {
    pub sender: String,
}

/// What the chain tells the contract about the block that runs the request.
#[derive(Debug)]
pub struct Env {
    /// The block time, in seconds.
    pub block_time: u64,
}

/// The parameters the contract is created with.
#[derive(Debug)]
pub struct InstantiateMsg {
    pub collection_address: String,
    pub lock_time: u64,
}

/// What the NFT's previous holder asks for when sending the token to the contract.
#[derive(Debug)]
pub enum NftReceiveMsg {
    Stake {},
}

/// A token delivered by a collection contract, as the library receives it:
/// the previous holder's address once the chain has validated it, the token,
/// and the decoded request that came with it. Either of the first and the
/// last is the framework's error where validation or decoding failed.
#[derive(Debug)]
pub struct NftReceipt {
    pub sender: Result<String, StdError>,
    pub token_id: String,
    pub msg: Result<NftReceiveMsg, StdError>,
}

/// The requests that change the contract's state.
#[derive(Debug)]
pub enum ExecuteMsg {
    UpdateOwner { owner: String },
    UpdateCollectionAddress { collection_address: String },
    UpdateLockTime { lock_time: u64 },
    UpdatedEnabled { enabled: bool },
    ReceiveNft(NftReceipt),
    Unstake { token_id: String },
    WithdrawId { token_id: String },
}

/// The requests that read the contract's state.
#[derive(Debug)]
pub enum QueryMsg {
    GetConfig {},
    GetStaking { address: String },
}

/// What a query answers, before it is encoded.
#[derive(Debug)]
pub enum QueryAnswer {
    Config(Config),
    Staking(StakingInfo),
}

/// The parameters of a code migration (there are none).
#[derive(Debug)]
pub struct MigrateMsg {}

} // verus!
