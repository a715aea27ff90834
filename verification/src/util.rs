use vstd::prelude::*;
use cosmwasm_std::StdError;
use crate::error::ContractError;
use crate::response::{ContractResponse, WasmExecuteMsg, empty_response};
use crate::state::ContractState;

verus! {

pub const MAX_LIMIT: u32 = 30;
pub const DEFAULT_LIMIT: u32 = 10;
pub const MAX_ORDER: u64 = 10;

/// The multiplier used in amounts.
pub fn multiple() -> (r: u128)
    ensures
        r == 100,
{
    100
}

/// The decimal scale of amounts.
pub fn decimal() -> (r: u128)
    ensures
        r == 1000000,
{
    1000000
}

/// Refuses with `Disabled` unless staking is open.
pub fn check_enabled(state: &ContractState) -> (r: Result<ContractResponse, ContractError>)
    ensures
        state.config.enabled ==> (r matches Ok(resp) && resp@ == empty_response()),
        !state.config.enabled ==> (r matches Err(e) && e is Disabled),
{
    if !state.config.enabled {
        return Err(ContractError::Disabled {});
    }
    Ok(ContractResponse::new())
}

/// Refuses with `Unauthorized` unless `address` is the owner's.
pub fn check_owner(state: &ContractState, address: &String) -> (r: Result<ContractResponse, ContractError>)
    ensures
        address@ == state.config.owner@ ==> (r matches Ok(resp) && resp@ == empty_response()),
        address@ != state.config.owner@ ==> (r matches Err(e) && e is Unauthorized),
{
    if *address != state.config.owner {
        return Err(ContractError::Unauthorized {});
    }
    Ok(ContractResponse::new())
}

/// The JSON encoding, as `cosmwasm_std::to_binary` writes it, of the cw721
/// request `TransferNft { recipient, token_id }`.
pub uninterp spec fn transfer_nft_json(token_id: Seq<char>, recipient: Seq<char>) -> Seq<u8>;

/// Encodes the cw721 request that moves `token_id` to `recipient`.
///
/// Calls `cosmwasm_std::to_binary` on `cw721::Cw721ExecuteMsg::TransferNft`.
/// Claimed: it succeeds, and the bytes are the encoding named by
/// `transfer_nft_json` of the two arguments. The JSON serializer that
/// `to_binary` uses returns `Ok` on every path it takes for a struct variant
/// of two strings (a map key, two string fields), so no error can come back.
#[verifier::external_body]
#[allow(deprecated)]
fn encode_transfer_nft(token_id: String, recipient: String) -> (r: Result<Vec<u8>, StdError>)
    ensures
        r is Ok,
        r->Ok_0@ == transfer_nft_json(token_id@, recipient@),
{
    cosmwasm_std::to_binary(&cw721::Cw721ExecuteMsg::TransferNft { recipient, token_id }).map(|b| b.0)
}

/// The message that delivers `encoded` to the collection contract, or the
/// error of the encoding.
pub fn transfer_message(collection_address: String, encoded: Result<Vec<u8>, StdError>) -> (r: Result<WasmExecuteMsg, ContractError>)
    ensures
        match encoded {
            Ok(bytes) => r matches Ok(m) && m@ == (collection_address@, bytes@),
            Err(e) => r == Err::<WasmExecuteMsg, ContractError>(ContractError::Std(e)),
        },
{
    match encoded {
        Ok(msg) => Ok(WasmExecuteMsg { contract_addr: collection_address, msg }),
        Err(e) => Err(ContractError::Std(e)),
    }
}

/// The message that asks the collection contract to transfer `token_id` to
/// `receiver`.
pub fn get_transfer_message(collection_address: String, token_id: String, receiver: String) -> (r: Result<WasmExecuteMsg, ContractError>)
    ensures
        r matches Ok(m) && m@ == (collection_address@, transfer_nft_json(token_id@, receiver@)),
{
    transfer_message(collection_address, encode_transfer_nft(token_id, receiver))
}

} // verus!
