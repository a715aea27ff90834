use vstd::prelude::*;
use crate::error::{ContractError, QueryError};
use crate::msg::{
    Env, ExecuteMsg, InstantiateMsg, MessageInfo, MigrateMsg, NftReceipt, NftReceiveMsg,
    QueryAnswer, QueryMsg,
};
use crate::response::{
    ContractResponse, ResponseView, bool_text, bool_to_string, decimal_text, empty_response,
    u64_to_string,
};
use crate::state::{
    Config, ConfigView, ContractState, ContractVersion, StakingInfo, StakingView, StateView,
    contains_string, copy_strings, other_than, remove_string, texts,
};
use crate::strmap::StrMap;
use crate::util::{check_enabled, check_owner, get_transfer_message, transfer_nft_json};

verus! {

/// The name under which the contract records its code.
pub const CONTRACT_NAME: &'static str = "SEITIZEN_STAKING";

/// The version of the code, as the package gives it.
pub const CONTRACT_VERSION: &'static str = "0.1.0";

// ---------------------------------------------------------------------------
// The model: what each request does to the state and what it answers.
// ---------------------------------------------------------------------------

/// The state with another configuration.
pub open spec fn with_config(s: StateView, c: ConfigView) -> StateView {
    StateView { config: c, staking: s.staking, unlock_time: s.unlock_time }
}

/// A response that reports two attributes.
pub open spec fn two_attributes(k1: Seq<char>, v1: Seq<char>, k2: Seq<char>, v2: Seq<char>) -> ResponseView {
    empty_response().with_attribute(k1, v1).with_attribute(k2, v2)
}

/// The state right after the contract is created.
pub open spec fn initial_state(owner: Seq<char>, collection_address: Seq<char>, lock_time: u64) -> StateView {
    StateView {
        config: ConfigView {
            collection_address,
            owner,
            lock_time,
            enabled: false,
            total_supply: 0,
        },
        staking: Map::empty(),
        unlock_time: Map::empty(),
    }
}

/// What an owner-only change of the configuration does: refused with
/// `Unauthorized` and nothing changed unless the sender is the owner; else the
/// configuration becomes `c` and the response is `resp`.
pub open spec fn owner_update_post(
    s: StateView,
    sender: Seq<char>,
    c: ConfigView,
    resp: ResponseView,
    r: Result<ContractResponse, ContractError>,
    t: StateView,
) -> bool {
    if sender != s.config.owner {
        &&& (r matches Err(e) && e is Unauthorized)
        &&& t == s
    } else {
        &&& (r matches Ok(ok) && ok@ == resp)
        &&& t == with_config(s, c)
    }
}

/// What a change of owner does.
pub open spec fn update_owner_post(
    s: StateView, sender: Seq<char>, owner: Seq<char>,
    r: Result<ContractResponse, ContractError>, t: StateView,
) -> bool {
    owner_update_post(s, sender, ConfigView { owner, ..s.config },
        two_attributes("action"@, "update_owner"@, "owner"@, owner), r, t)
}

/// What opening or closing staking does.
pub open spec fn update_enabled_post(
    s: StateView, sender: Seq<char>, enabled: bool,
    r: Result<ContractResponse, ContractError>, t: StateView,
) -> bool {
    owner_update_post(s, sender, ConfigView { enabled, ..s.config },
        two_attributes("action"@, "update_enabled"@, "enabled"@, bool_text(enabled)), r, t)
}

/// What a change of collection does.
pub open spec fn update_collection_post(
    s: StateView, sender: Seq<char>, collection_address: Seq<char>,
    r: Result<ContractResponse, ContractError>, t: StateView,
) -> bool {
    owner_update_post(s, sender, ConfigView { collection_address, ..s.config },
        two_attributes("action"@, "update_collection"@, "collection_address"@, collection_address), r, t)
}

/// What a change of lock time does.
pub open spec fn update_locktime_post(
    s: StateView, sender: Seq<char>, lock_time: u64,
    r: Result<ContractResponse, ContractError>, t: StateView,
) -> bool {
    owner_update_post(s, sender, ConfigView { lock_time, ..s.config },
        two_attributes("action"@, "update_lockTime"@, "lockTime"@, decimal_text(lock_time as nat)), r, t)
}

/// The state after `user` stakes `token_id`: the token is appended to the
/// user's record (which is created where there is none) and counted.
pub open spec fn staked(s: StateView, user: Seq<char>, token_id: Seq<char>) -> StateView {
    StateView {
        config: ConfigView { total_supply: (s.config.total_supply + 1) as u64, ..s.config },
        staking: s.staking.insert(
            user,
            if s.staking.contains_key(user) {
                StakingView {
                    address: s.staking[user].address,
                    token_ids: s.staking[user].token_ids.push(token_id),
                }
            } else {
                StakingView { address: user, token_ids: seq![token_id] }
            },
        ),
        unlock_time: s.unlock_time,
    }
}

/// A delivery is accepted: staking is open, the collection delivered it, the
/// holder's address is valid and the request was decoded.
pub open spec fn stake_proceeds(s: StateView, sender: Seq<char>, msg: NftReceipt) -> bool {
    &&& s.config.enabled
    &&& sender == s.config.collection_address
    &&& msg.sender is Ok
    &&& msg.msg is Ok
}

/// What a delivery of an NFT does, the checks in this order: `Disabled`,
/// `InvalidCw721`, the address error, the decoding error; else the holder's
/// stake.
pub open spec fn receive_nft_post(
    s: StateView, sender: Seq<char>, msg: NftReceipt,
    r: Result<ContractResponse, ContractError>, t: StateView,
) -> bool {
    if !s.config.enabled {
        &&& (r matches Err(e) && e is Disabled)
        &&& t == s
    } else if sender != s.config.collection_address {
        &&& (r matches Err(e) && e is InvalidCw721)
        &&& t == s
    } else {
        match msg.sender {
            Err(x) => r == Err::<ContractResponse, ContractError>(ContractError::Std(x)) && t == s,
            Ok(user) => match msg.msg {
                Err(x) => r == Err::<ContractResponse, ContractError>(ContractError::Std(x)) && t == s,
                Ok(NftReceiveMsg::Stake {}) => {
                    &&& (r matches Ok(resp) && resp@ == two_attributes(
                        "action"@, "execute_receive"@, "token_id"@, msg.token_id@,
                    ).with_attribute("user_address"@, user@))
                    &&& t == staked(s, user@, msg.token_id@)
                },
            },
        }
    }
}

/// How a request to unstake is decided.
pub enum UnstakeStep {
    /// Refused with the error.
    Refuse(ContractError),
    /// The time of the request is recorded; the token stays staked.
    RecordRequest,
    /// The token leaves the sender's record and goes back to the sender.
    Release,
}

/// Release where the sender has staked the token, else `InvalidStaking`.
pub open spec fn release_step(s: StateView, sender: Seq<char>, token_id: Seq<char>) -> UnstakeStep {
    if s.staking.contains_key(sender) && s.staking[sender].token_ids.contains(token_id) {
        UnstakeStep::Release
    } else {
        UnstakeStep::Refuse(ContractError::InvalidStaking {})
    }
}

/// With no lock time a request releases at once. With one, the first request
/// for a token records its time, and a later one releases only once more than
/// the lock time has passed since.
pub open spec fn unstake_step(s: StateView, now: u64, sender: Seq<char>, token_id: Seq<char>) -> UnstakeStep {
    if s.config.lock_time == 0 {
        release_step(s, sender, token_id)
    } else if !s.unlock_time.contains_key(token_id) {
        UnstakeStep::RecordRequest
    } else if now > s.unlock_time[token_id] + s.config.lock_time {
        release_step(s, sender, token_id)
    } else {
        UnstakeStep::Refuse(ContractError::PendingUnStaking {})
    }
}

/// The inputs on which an unstake request does no arithmetic that overflows.
pub open spec fn unstake_safe(s: StateView, now: u64, sender: Seq<char>, token_id: Seq<char>) -> bool {
    &&& (s.config.lock_time != 0 && s.unlock_time.contains_key(token_id))
        ==> s.unlock_time[token_id] + s.config.lock_time <= u64::MAX
    &&& unstake_step(s, now, sender, token_id) is Release ==> s.config.total_supply > 0
}

/// The state after the token leaves the sender's record: every occurrence of
/// it is removed, the others keep their order, and one token less is counted.
pub open spec fn released(s: StateView, sender: Seq<char>, token_id: Seq<char>) -> StateView {
    StateView {
        config: ConfigView { total_supply: (s.config.total_supply - 1) as u64, ..s.config },
        staking: s.staking.insert(
            sender,
            StakingView {
                address: s.staking[sender].address,
                token_ids: s.staking[sender].token_ids.filter(other_than(token_id)),
            },
        ),
        unlock_time: s.unlock_time,
    }
}

/// The state after an unstake request for the token is recorded at `now`.
pub open spec fn request_recorded(s: StateView, token_id: Seq<char>, now: u64) -> StateView {
    StateView { unlock_time: s.unlock_time.insert(token_id, now), ..s }
}

/// The response of a release: the transfer of the token back to the
/// sender, then the attributes.
pub open spec fn release_response(s: StateView, sender: Seq<char>, token_id: Seq<char>, action: Seq<char>) -> ResponseView {
    empty_response()
        .with_message((s.config.collection_address, transfer_nft_json(token_id, sender)))
        .with_attribute("action"@, action)
        .with_attribute("token_id"@, token_id)
}

/// What a release does: it succeeds, the token is released and sent back.
pub open spec fn release_post(
    s: StateView, sender: Seq<char>, token_id: Seq<char>,
    r: Result<ContractResponse, ContractError>, t: StateView,
) -> bool {
    &&& (r matches Ok(resp) && resp@ == release_response(s, sender, token_id, "unstake"@))
    &&& t == released(s, sender, token_id)
}

/// What a request to unstake does, as [`unstake_step`] decides it.
pub open spec fn unstake_post(
    s: StateView, now: u64, sender: Seq<char>, token_id: Seq<char>,
    r: Result<ContractResponse, ContractError>, t: StateView,
) -> bool {
    match unstake_step(s, now, sender, token_id) {
        UnstakeStep::Refuse(e) => r == Err::<ContractResponse, ContractError>(e) && t == s,
        UnstakeStep::RecordRequest => {
            &&& (r matches Ok(resp) && resp@ == two_attributes("action"@, "create_unstake"@, "token_id"@, token_id))
            &&& t == request_recorded(s, token_id, now)
        },
        UnstakeStep::Release => release_post(s, sender, token_id, r, t),
    }
}

/// What the owner's withdrawal of a token does: the token goes to the owner
/// and one token less is counted; the staking records stay as they are.
pub open spec fn withdraw_post(
    s: StateView, sender: Seq<char>, token_id: Seq<char>,
    r: Result<ContractResponse, ContractError>, t: StateView,
) -> bool {
    if sender != s.config.owner {
        &&& (r matches Err(e) && e is Unauthorized)
        &&& t == s
    } else {
        &&& (r matches Ok(resp) && resp@ == release_response(s, sender, token_id, "withdraw"@))
        &&& t == with_config(s, ConfigView { total_supply: (s.config.total_supply - 1) as u64, ..s.config })
    }
}

/// The inputs on which a request does no arithmetic that overflows.
pub open spec fn execute_safe(s: StateView, now: u64, sender: Seq<char>, msg: ExecuteMsg) -> bool {
    match msg {
        ExecuteMsg::ReceiveNft(m) => stake_proceeds(s, sender, m) ==> s.config.total_supply < u64::MAX,
        ExecuteMsg::Unstake { token_id } => unstake_safe(s, now, sender, token_id@),
        ExecuteMsg::WithdrawId { token_id } => sender == s.config.owner ==> s.config.total_supply > 0,
        _ => true,
    }
}

/// What a request does, by its kind.
pub open spec fn execute_post(
    s: StateView, now: u64, sender: Seq<char>, msg: ExecuteMsg,
    r: Result<ContractResponse, ContractError>, t: StateView,
) -> bool {
    match msg {
        ExecuteMsg::UpdateOwner { owner } => update_owner_post(s, sender, owner@, r, t),
        ExecuteMsg::UpdateCollectionAddress { collection_address } =>
            update_collection_post(s, sender, collection_address@, r, t),
        ExecuteMsg::UpdateLockTime { lock_time } => update_locktime_post(s, sender, lock_time, r, t),
        ExecuteMsg::UpdatedEnabled { enabled } => update_enabled_post(s, sender, enabled, r, t),
        ExecuteMsg::ReceiveNft(m) => receive_nft_post(s, sender, m, r, t),
        ExecuteMsg::Unstake { token_id } => unstake_post(s, now, sender, token_id@, r, t),
        ExecuteMsg::WithdrawId { token_id } => withdraw_post(s, sender, token_id@, r, t),
    }
}

/// Whether the request can be carried out with no arithmetic that overflows,
/// which is what [`execute`] asks of its caller.
pub fn execute_is_safe(state: &ContractState, env: &Env, info: &MessageInfo, msg: &ExecuteMsg) -> (r: bool)
    ensures
        r == execute_safe(state@, env.block_time, info.sender@, *msg),
{
    match msg {
        ExecuteMsg::ReceiveNft(m) => {
            let proceeds = state.config.enabled && info.sender == state.config.collection_address
                && m.sender.is_ok() && m.msg.is_ok();
            !proceeds || state.config.total_supply < u64::MAX
        },
        ExecuteMsg::Unstake { token_id } => {
            let lock_time = state.config.lock_time;
            if lock_time == 0 {
                state.config.total_supply > 0 || !holds_token(state, &info.sender, token_id)
            } else {
                match state.unlock_time.get(token_id) {
                    None => true,
                    Some(t) => {
                        if *t > u64::MAX - lock_time {
                            false
                        } else if env.block_time > *t + lock_time {
                            state.config.total_supply > 0 || !holds_token(state, &info.sender, token_id)
                        } else {
                            true
                        }
                    },
                }
            }
        },
        ExecuteMsg::WithdrawId { .. } => info.sender != state.config.owner || state.config.total_supply > 0,
        _ => true,
    }
}

/// Whether `sender`'s record holds the token.
fn holds_token(state: &ContractState, sender: &String, token_id: &String) -> (r: bool)
    ensures
        r == (release_step(state@, sender@, token_id@) is Release),
{
    match state.staking.get(sender) {
        Some(record) => contains_string(&record.token_ids, token_id),
        None => false,
    }
}

// ---------------------------------------------------------------------------
// The entry points.
// ---------------------------------------------------------------------------

/// Creates the contract: the sender becomes the owner, staking starts closed
/// and nothing is counted. Also gives the name and version to record.
pub fn instantiate(_env: Env, info: MessageInfo, msg: InstantiateMsg) -> (r: (ContractState, ContractVersion, ContractResponse))
    ensures
        r.0@ == initial_state(info.sender@, msg.collection_address@, msg.lock_time),
        r.1.contract@ == CONTRACT_NAME@,
        r.1.version@ == CONTRACT_VERSION@,
        r.2@ == two_attributes("method"@, "instantiate"@, "owner"@, info.sender@)
            .with_attribute("collection_address"@, msg.collection_address@),
{
    let state = ContractState::new(Config {
        collection_address: msg.collection_address.clone(),
        owner: info.sender.clone(),
        lock_time: msg.lock_time,
        enabled: false,
        total_supply: 0,
    });
    let version = ContractVersion { contract: CONTRACT_NAME.to_owned(), version: CONTRACT_VERSION.to_owned() };
    let response = ContractResponse::new()
        .add_attribute("method", "instantiate".to_owned())
        .add_attribute("owner", info.sender)
        .add_attribute("collection_address", msg.collection_address);
    (state, version, response)
}

/// Carries out a request.
pub fn execute(state: &mut ContractState, env: Env, info: MessageInfo, msg: ExecuteMsg) -> (r: Result<ContractResponse, ContractError>)
    requires
        execute_safe(old(state)@, env.block_time, info.sender@, msg),
    ensures
        execute_post(old(state)@, env.block_time, info.sender@, msg, r, final(state)@),
{
    match msg {
        ExecuteMsg::UpdateOwner { owner } => execute_update_owner(state, info, owner),
        ExecuteMsg::UpdateCollectionAddress { collection_address } =>
            execute_update_collection(state, info, collection_address),
        ExecuteMsg::UpdateLockTime { lock_time } => execute_update_locktime(state, info, lock_time),
        ExecuteMsg::UpdatedEnabled { enabled } => execute_update_enabled(state, info, enabled),
        ExecuteMsg::ReceiveNft(m) => execute_receive_nft(state, info, m),
        ExecuteMsg::Unstake { token_id } => execute_unstake(state, env, info, token_id),
        ExecuteMsg::WithdrawId { token_id } => execute_withdraw(state, info, token_id),
    }
}

/// Makes `owner` the owner; only the owner may.
pub fn execute_update_owner(state: &mut ContractState, info: MessageInfo, owner: String) -> (r: Result<ContractResponse, ContractError>)
    ensures
        update_owner_post(old(state)@, info.sender@, owner@, r, final(state)@),
{
    if let Err(e) = check_owner(state, &info.sender) {
        return Err(e);
    }
    state.config.owner = owner.clone();
    Ok(ContractResponse::new().add_attribute("action", "update_owner".to_owned()).add_attribute("owner", owner))
}

/// Opens or closes staking; only the owner may.
pub fn execute_update_enabled(state: &mut ContractState, info: MessageInfo, enabled: bool) -> (r: Result<ContractResponse, ContractError>)
    ensures
        update_enabled_post(old(state)@, info.sender@, enabled, r, final(state)@),
{
    if let Err(e) = check_owner(state, &info.sender) {
        return Err(e);
    }
    state.config.enabled = enabled;
    Ok(ContractResponse::new()
        .add_attribute("action", "update_enabled".to_owned())
        .add_attribute("enabled", bool_to_string(enabled)))
}

/// Changes the collection whose tokens may be staked; only the owner may.
pub fn execute_update_collection(state: &mut ContractState, info: MessageInfo, collection_address: String) -> (r: Result<ContractResponse, ContractError>)
    ensures
        update_collection_post(old(state)@, info.sender@, collection_address@, r, final(state)@),
{
    if let Err(e) = check_owner(state, &info.sender) {
        return Err(e);
    }
    state.config.collection_address = collection_address.clone();
    Ok(ContractResponse::new()
        .add_attribute("action", "update_collection".to_owned())
        .add_attribute("collection_address", collection_address))
}

/// Changes the lock time; only the owner may.
pub fn execute_update_locktime(state: &mut ContractState, info: MessageInfo, lock_time: u64) -> (r: Result<ContractResponse, ContractError>)
    ensures
        update_locktime_post(old(state)@, info.sender@, lock_time, r, final(state)@),
{
    if let Err(e) = check_owner(state, &info.sender) {
        return Err(e);
    }
    state.config.lock_time = lock_time;
    Ok(ContractResponse::new()
        .add_attribute("action", "update_lockTime".to_owned())
        .add_attribute("lockTime", u64_to_string(lock_time)))
}

/// Stakes a token that the collection contract delivers on its holder's behalf.
pub fn execute_receive_nft(state: &mut ContractState, info: MessageInfo, msg: NftReceipt) -> (r: Result<ContractResponse, ContractError>)
    requires
        stake_proceeds(old(state)@, info.sender@, msg) ==> old(state)@.config.total_supply < u64::MAX,
    ensures
        receive_nft_post(old(state)@, info.sender@, msg, r, final(state)@),
{
    if let Err(e) = check_enabled(state) {
        return Err(e);
    }
    if info.sender != state.config.collection_address {
        return Err(ContractError::InvalidCw721 {});
    }
    let token_id = msg.token_id;
    let user_addr = match msg.sender {
        Ok(a) => a,
        Err(e) => return Err(ContractError::Std(e)),
    };
    let nft_msg = match msg.msg {
        Ok(m) => m,
        Err(e) => return Err(ContractError::Std(e)),
    };
    match nft_msg {
        NftReceiveMsg::Stake {} => {
            let record = match state.staking.get(&user_addr) {
                Some(existing) => {
                    let mut list = copy_strings(&existing.token_ids);
                    let ghost before = list@;
                    list.push(token_id.clone());
                    assert(texts(list@) =~= texts(before).push(token_id@));
                    StakingInfo { address: existing.address.clone(), token_ids: list }
                },
                None => {
                    let mut list: Vec<String> = Vec::new();
                    list.push(token_id.clone());
                    assert(texts(list@) =~= seq![token_id@]);
                    StakingInfo { address: user_addr.clone(), token_ids: list }
                },
            };
            state.staking.insert(user_addr.clone(), record);
            state.config.total_supply = state.config.total_supply + 1;
            Ok(ContractResponse::new()
                .add_attribute("action", "execute_receive".to_owned())
                .add_attribute("token_id", token_id)
                .add_attribute("user_address", user_addr))
        },
    }
}

/// Takes the token out of the sender's record and sends it back to the sender.
fn release_stake(state: &mut ContractState, sender: String, token_id: String) -> (r: Result<ContractResponse, ContractError>)
    requires
        release_step(old(state)@, sender@, token_id@) is Release ==> old(state)@.config.total_supply > 0,
    ensures
        match release_step(old(state)@, sender@, token_id@) {
            UnstakeStep::Release => release_post(old(state)@, sender@, token_id@, r, final(state)@),
            _ => (r matches Err(e) && e is InvalidStaking) && final(state)@ == old(state)@,
        },
{
    let record = match state.staking.get(&sender) {
        Some(record) => record,
        None => return Err(ContractError::InvalidStaking {}),
    };
    if !contains_string(&record.token_ids, &token_id) {
        return Err(ContractError::InvalidStaking {});
    }
    let kept = StakingInfo { address: record.address.clone(), token_ids: remove_string(&record.token_ids, &token_id) };
    let send_nft_msg = match get_transfer_message(state.config.collection_address.clone(), token_id.clone(), sender.clone()) {
        Ok(m) => m,
        Err(e) => return Err(e),
    };
    state.staking.insert(sender, kept);
    state.config.total_supply = state.config.total_supply - 1;
    Ok(ContractResponse::new()
        .add_message(send_nft_msg)
        .add_attribute("action", "unstake".to_owned())
        .add_attribute("token_id", token_id))
}

/// Asks for a staked token back.
pub fn execute_unstake(state: &mut ContractState, env: Env, info: MessageInfo, token_id: String) -> (r: Result<ContractResponse, ContractError>)
    requires
        unstake_safe(old(state)@, env.block_time, info.sender@, token_id@),
    ensures
        unstake_post(old(state)@, env.block_time, info.sender@, token_id@, r, final(state)@),
{
    let lock_time = state.config.lock_time;
    if lock_time == 0 {
        return release_stake(state, info.sender, token_id);
    }
    let unlocked_time = match state.unlock_time.get(&token_id) {
        Some(t) => *t,
        None => {
            state.unlock_time.insert(token_id.clone(), env.block_time);
            return Ok(ContractResponse::new()
                .add_attribute("action", "create_unstake".to_owned())
                .add_attribute("token_id", token_id));
        },
    };
    if env.block_time > unlocked_time + lock_time {
        release_stake(state, info.sender, token_id)
    } else {
        Err(ContractError::PendingUnStaking {})
    }
}

/// Sends a token held by the contract to the owner; only the owner may.
pub fn execute_withdraw(state: &mut ContractState, info: MessageInfo, token_id: String) -> (r: Result<ContractResponse, ContractError>)
    requires
        info.sender@ == old(state)@.config.owner ==> old(state)@.config.total_supply > 0,
    ensures
        withdraw_post(old(state)@, info.sender@, token_id@, r, final(state)@),
{
    if let Err(e) = check_owner(state, &info.sender) {
        return Err(e);
    }
    let msg = match get_transfer_message(state.config.collection_address.clone(), token_id.clone(), info.sender) {
        Ok(m) => m,
        Err(e) => return Err(e),
    };
    state.config.total_supply = state.config.total_supply - 1;
    Ok(ContractResponse::new()
        .add_message(msg)
        .add_attribute("action", "withdraw".to_owned())
        .add_attribute("token_id", token_id))
}

/// Reads the configuration or an address's staking record, from what is
/// stored: the configuration, if any, and the staking records.
pub fn query(config: Option<&Config>, staking: &StrMap<StakingInfo>, _env: Env, msg: QueryMsg) -> (r: Result<QueryAnswer, QueryError>)
    ensures
        match msg {
            QueryMsg::GetConfig {} => match config {
                Some(c) => r matches Ok(QueryAnswer::Config(answer)) && answer@ == c@,
                None => r matches Err(QueryError::ConfigNotFound {}),
            },
            QueryMsg::GetStaking { address } => if staking@.contains_key(address@) {
                r matches Ok(QueryAnswer::Staking(info)) && info@ == staking@[address@]
            } else {
                r matches Err(QueryError::StakingNotFound { address: a }) && a@ == address@
            },
        },
{
    match msg {
        QueryMsg::GetConfig {} => match query_config(config) {
            Ok(c) => Ok(QueryAnswer::Config(c)),
            Err(e) => Err(e),
        },
        QueryMsg::GetStaking { address } => match query_staking_info(staking, address) {
            Ok(info) => Ok(QueryAnswer::Staking(info)),
            Err(e) => Err(e),
        },
    }
}

fn query_config(config: Option<&Config>) -> (r: Result<Config, QueryError>)
    ensures
        match config {
            Some(c) => r matches Ok(answer) && answer@ == c@,
            None => r matches Err(QueryError::ConfigNotFound {}),
        },
{
    match config {
        Some(c) => Ok(c.duplicate()),
        None => Err(QueryError::ConfigNotFound {}),
    }
}

fn query_staking_info(staking: &StrMap<StakingInfo>, address: String) -> (r: Result<StakingInfo, QueryError>)
    ensures
        staking@.contains_key(address@) ==> (r matches Ok(info) && info@ == staking@[address@]),
        !staking@.contains_key(address@) ==> (r matches Err(QueryError::StakingNotFound { address: a })
            && a@ == address@),
{
    match staking.get(&address) {
        Some(info) => Ok(info.duplicate()),
        None => Err(QueryError::StakingNotFound { address }),
    }
}

/// Accepts a code migration only where the recorded contract is this one.
pub fn migrate(stored: ContractVersion, _env: Env, _msg: MigrateMsg) -> (r: Result<ContractResponse, ContractError>)
    ensures
        stored.contract@ == CONTRACT_NAME@ ==> (r matches Ok(resp) && resp@ == empty_response()),
        stored.contract@ != CONTRACT_NAME@ ==> (r matches Err(ContractError::CannotMigrate { previous_contract })
            && previous_contract@ == stored.contract@),
{
    if stored.contract != CONTRACT_NAME.to_owned() {
        return Err(ContractError::CannotMigrate { previous_contract: stored.contract });
    }
    Ok(ContractResponse::new())
}

} // verus!
