use vstd::prelude::*;
use crate::contract::{
    UnstakeStep, execute_post, with_config, update_owner_post, update_collection_post,
    update_locktime_post, update_enabled_post, withdraw_post, execute_safe, initial_state, receive_nft_post, release_step,
    released, request_recorded, staked, unstake_post, unstake_step,
};
use crate::error::ContractError;
use crate::msg::{ExecuteMsg, NftReceipt};
use crate::response::ContractResponse;
use crate::state::{ConfigView, StakingView, StateView, other_than};
use crate::util::transfer_nft_json;

verus! {

/// A refused request leaves the state exactly as it was.
pub proof fn refused_request_changes_nothing(
    s: StateView, now: u64, sender: Seq<char>, msg: ExecuteMsg,
    r: Result<ContractResponse, ContractError>, t: StateView,
)
    requires
        execute_post(s, now, sender, msg, r, t),
        r is Err,
    ensures
        t == s,
{
}

/// No one but the owner changes the owner, the collection, the lock time or
/// whether staking is open.
pub proof fn only_owner_changes_settings(
    s: StateView, now: u64, sender: Seq<char>, msg: ExecuteMsg,
    r: Result<ContractResponse, ContractError>, t: StateView,
)
    requires
        execute_post(s, now, sender, msg, r, t),
        sender != s.config.owner,
    ensures
        t.config.owner == s.config.owner,
        t.config.collection_address == s.config.collection_address,
        t.config.lock_time == s.config.lock_time,
        t.config.enabled == s.config.enabled,
{
}

/// Whether the request changes one of the owner's settings.
pub open spec fn is_setting_update(msg: ExecuteMsg) -> bool {
    ||| msg is UpdateOwner
    ||| msg is UpdateCollectionAddress
    ||| msg is UpdateLockTime
    ||| msg is UpdatedEnabled
}

/// The configuration with the setting that the request sends.
pub open spec fn settings_after(c: ConfigView, msg: ExecuteMsg) -> ConfigView {
    match msg {
        ExecuteMsg::UpdateOwner { owner } => ConfigView { owner: owner@, ..c },
        ExecuteMsg::UpdateCollectionAddress { collection_address } =>
            ConfigView { collection_address: collection_address@, ..c },
        ExecuteMsg::UpdateLockTime { lock_time } => ConfigView { lock_time, ..c },
        ExecuteMsg::UpdatedEnabled { enabled } => ConfigView { enabled, ..c },
        _ => c,
    }
}

/// A setting that the owner changes reads back as the value sent; the rest of
/// the state stays as it was.
pub proof fn owner_setting_reads_back(
    s: StateView, now: u64, msg: ExecuteMsg,
    r: Result<ContractResponse, ContractError>, t: StateView,
)
    requires
        execute_post(s, now, s.config.owner, msg, r, t),
        is_setting_update(msg),
    ensures
        r is Ok,
        t == with_config(s, settings_after(s.config, msg)),
{
}

/// The count of staked tokens moves by one at most: up on a stake, down on
/// an unstake or a withdrawal, and not at all on any other request.
pub proof fn total_supply_moves_by_one(
    s: StateView, now: u64, sender: Seq<char>, msg: ExecuteMsg,
    r: Result<ContractResponse, ContractError>, t: StateView,
)
    requires
        execute_safe(s, now, sender, msg),
        execute_post(s, now, sender, msg, r, t),
    ensures
        t.config.total_supply == s.config.total_supply
            || (msg is ReceiveNft && t.config.total_supply == s.config.total_supply + 1)
            || ((msg is Unstake || msg is WithdrawId) && t.config.total_supply == s.config.total_supply - 1),
{
}

/// An unstake request leaves every other address's staking record as it was.
pub proof fn unstake_touches_only_the_sender(
    s: StateView, now: u64, sender: Seq<char>, token_id: Seq<char>,
    r: Result<ContractResponse, ContractError>, t: StateView, other: Seq<char>,
)
    requires
        unstake_post(s, now, sender, token_id, r, t),
        other != sender,
    ensures
        t.staking.contains_key(other) == s.staking.contains_key(other),
        s.staking.contains_key(other) ==> t.staking[other] == s.staking[other],
{
}

/// An unstake request that sends a token out sends it to the sender, and only
/// where the sender's record holds that token.
pub proof fn unstaked_token_goes_to_its_holder(
    s: StateView, now: u64, sender: Seq<char>, token_id: Seq<char>,
    r: Result<ContractResponse, ContractError>, t: StateView,
)
    requires
        unstake_post(s, now, sender, token_id, r, t),
        r matches Ok(resp) && resp@.messages.len() > 0,
    ensures
        s.staking.contains_key(sender),
        s.staking[sender].token_ids.contains(token_id),
        r->Ok_0@.messages == seq![(s.config.collection_address, transfer_nft_json(token_id, sender))],
{
    let resp = r->Ok_0;
    if !(unstake_step(s, now, sender, token_id) is Release) {
        assert(resp@.messages.len() == 0);
    }
    assert(resp@.messages =~= seq![(s.config.collection_address, transfer_nft_json(token_id, sender))]);
}

/// A released token is no longer in the sender's record.
pub proof fn released_token_is_gone(s: StateView, sender: Seq<char>, token_id: Seq<char>)
    ensures
        !released(s, sender, token_id).staking[sender].token_ids.contains(token_id),
{
    let kept = s.staking[sender].token_ids.filter(other_than(token_id));
    assert(released(s, sender, token_id).staking[sender].token_ids == kept);
    if kept.contains(token_id) {
        let i = choose|i: int| 0 <= i < kept.len() && kept[i] == token_id;
        s.staking[sender].token_ids.lemma_filter_pred(other_than(token_id), i);
    }
}

proof fn lemma_filter_without(l: Seq<Seq<char>>, token_id: Seq<char>)
    requires
        !l.contains(token_id),
    ensures
        l.filter(other_than(token_id)) == l,
    decreases l.len(),
{
    reveal_with_fuel(Seq::<_>::filter, 1);
    if l.len() > 0 {
        assert(!l.drop_last().contains(token_id)) by {
            if l.drop_last().contains(token_id) {
                let i = choose|i: int| 0 <= i < l.drop_last().len() && l.drop_last()[i] == token_id;
                assert(l[i] == token_id);
            }
        }
        lemma_filter_without(l.drop_last(), token_id);
        assert(l.last() != token_id) by {
            assert(l[l.len() - 1] == l.last());
        }
        assert(l.drop_last().push(l.last()) =~= l);
    }
}

/// Staking a token that the holder has not staked yet and unstaking it at
/// once, with no lock time, gives back the state from before, but for a
/// record with no token where the holder had none.
pub proof fn stake_then_unstake_restores(s: StateView, user: Seq<char>, token_id: Seq<char>, now: u64)
    requires
        s.config.lock_time == 0,
        s.config.total_supply < u64::MAX,
        s.staking.contains_key(user) ==> !s.staking[user].token_ids.contains(token_id),
    ensures
        unstake_step(staked(s, user, token_id), now, user, token_id) is Release,
        released(staked(s, user, token_id), user, token_id) == if s.staking.contains_key(user) {
            s
        } else {
            StateView {
                staking: s.staking.insert(user, StakingView { address: user, token_ids: seq![] }),
                ..s
            }
        },
{
    reveal_with_fuel(Seq::<_>::filter, 1);
    let s1 = staked(s, user, token_id);
    let list = s1.staking[user].token_ids;
    assert(list.last() == token_id);
    assert(list.contains(token_id)) by {
        assert(list[list.len() - 1] == token_id);
    }
    let before = if s.staking.contains_key(user) { s.staking[user].token_ids } else { seq![] };
    assert(list.drop_last() =~= before);
    lemma_filter_without(before, token_id);
    assert(list.filter(other_than(token_id)) == before);
    let s2 = released(s1, user, token_id);
    if s.staking.contains_key(user) {
        assert(s2.staking =~= s.staking);
    } else {
        assert(s2.staking =~= s.staking.insert(user, StakingView { address: user, token_ids: seq![] }));
    }
}

/// With a lock time, the first unstake request for a token only records when
/// it was made; a later request releases the token only once more than the
/// lock time has passed since, and is refused as pending before.
pub proof fn locked_unstake_waits(s: StateView, requested_at: u64, now: u64, sender: Seq<char>, token_id: Seq<char>)
    requires
        s.config.lock_time != 0,
        !s.unlock_time.contains_key(token_id),
    ensures
        unstake_step(s, requested_at, sender, token_id) is RecordRequest,
        unstake_step(request_recorded(s, token_id, requested_at), now, sender, token_id) == if now > requested_at
            + s.config.lock_time {
            release_step(s, sender, token_id)
        } else {
            UnstakeStep::Refuse(ContractError::PendingUnStaking {})
        },
{
}

/// A newly created contract has staking closed: every delivery is refused
/// as disabled.
pub proof fn new_contract_refuses_deliveries(
    owner: Seq<char>, collection_address: Seq<char>, lock_time: u64, sender: Seq<char>,
    msg: NftReceipt, r: Result<ContractResponse, ContractError>, t: StateView,
)
    requires
        receive_nft_post(initial_state(owner, collection_address, lock_time), sender, msg, r, t),
    ensures
        r matches Err(e) && e is Disabled,
        t == initial_state(owner, collection_address, lock_time),
{
}

/// How many tokens the record of `address` lists (none where it has no record).
pub open spec fn recorded(staking: Map<Seq<char>, StakingView>, address: Seq<char>) -> nat {
    if staking.contains_key(address) { staking[address].token_ids.len() } else { 0 }
}

/// The token occurs in the list at `i` and nowhere else.
pub open spec fn held_once(l: Seq<Seq<char>>, token_id: Seq<char>, i: int) -> bool {
    &&& 0 <= i < l.len()
    &&& l[i] == token_id
    &&& forall|j: int| 0 <= j < l.len() && j != i ==> l[j] != token_id
}

proof fn lemma_filter_once(l: Seq<Seq<char>>, token_id: Seq<char>, i: int)
    requires
        held_once(l, token_id, i),
    ensures
        l.filter(other_than(token_id)).len() == l.len() - 1,
    decreases l.len(),
{
    reveal_with_fuel(Seq::<_>::filter, 1);
    let rest = l.drop_last();
    if i == l.len() - 1 {
        assert(!rest.contains(token_id)) by {
            if rest.contains(token_id) {
                let k = choose|k: int| 0 <= k < rest.len() && rest[k] == token_id;
                assert(l[k] == token_id);
            }
        }
        lemma_filter_without(rest, token_id);
    } else {
        assert(held_once(rest, token_id, i)) by {
            assert forall|j: int| 0 <= j < rest.len() && j != i implies rest[j] != token_id by {
                assert(rest[j] == l[j]);
            }
        }
        lemma_filter_once(rest, token_id, i);
        assert(l.last() != token_id) by {
            assert(l.last() == l[l.len() - 1]);
        }
    }
}

/// A stake counts one token more and lists one token more in the holder's
/// record; every other record stays as it was.
pub proof fn stake_counts_what_it_records(s: StateView, user: Seq<char>, token_id: Seq<char>, other: Seq<char>)
    requires
        s.config.total_supply < u64::MAX,
        other != user,
    ensures
        staked(s, user, token_id).config.total_supply == s.config.total_supply + 1,
        recorded(staked(s, user, token_id).staking, user) == recorded(s.staking, user) + 1,
        staked(s, user, token_id).staking.contains_key(other) == s.staking.contains_key(other),
        s.staking.contains_key(other) ==> staked(s, user, token_id).staking[other] == s.staking[other],
{
}

/// Releasing a token that the sender's record lists once counts one token
/// less and lists one token less; every other record stays as it was.
pub proof fn release_counts_what_it_records(s: StateView, sender: Seq<char>, token_id: Seq<char>, i: int, other: Seq<char>)
    requires
        s.staking.contains_key(sender),
        held_once(s.staking[sender].token_ids, token_id, i),
        s.config.total_supply > 0,
        other != sender,
    ensures
        released(s, sender, token_id).config.total_supply == s.config.total_supply - 1,
        recorded(released(s, sender, token_id).staking, sender) == recorded(s.staking, sender) - 1,
        released(s, sender, token_id).staking.contains_key(other) == s.staking.contains_key(other),
        s.staking.contains_key(other) ==> released(s, sender, token_id).staking[other] == s.staking[other],
{
    lemma_filter_once(s.staking[sender].token_ids, token_id, i);
}

/// The number of tokens listed by the records under the given addresses.
pub open spec fn records_total(staking: Map<Seq<char>, StakingView>, keys: Set<Seq<char>>) -> nat
    decreases keys.len(),
    when keys.finite()
{
    if keys.len() == 0 {
        0
    } else {
        let k = keys.choose();
        recorded(staking, k) + records_total(staking, keys.remove(k))
    }
}

/// The number of tokens that all records list.
pub open spec fn all_recorded(staking: Map<Seq<char>, StakingView>) -> nat {
    records_total(staking, staking.dom())
}

/// The count of staked tokens is the number of tokens the records list.
pub open spec fn count_matches_records(s: StateView) -> bool {
    &&& s.staking.dom().finite()
    &&& s.config.total_supply == all_recorded(s.staking)
}

/// The token occurs at most once in the list.
pub open spec fn at_most_once(l: Seq<Seq<char>>, token_id: Seq<char>) -> bool {
    forall|i: int, j: int| 0 <= i < l.len() && 0 <= j < l.len() && l[i] == token_id && l[j] == token_id ==> i == j
}

proof fn lemma_total_remove(staking: Map<Seq<char>, StakingView>, keys: Set<Seq<char>>, a: Seq<char>)
    requires
        keys.finite(),
        keys.contains(a),
    ensures
        records_total(staking, keys) == recorded(staking, a) + records_total(staking, keys.remove(a)),
    decreases keys.len(),
{
    let k = keys.choose();
    assert(keys.len() != 0);
    assert(keys.contains(k));
    if k != a {
        lemma_total_remove(staking, keys.remove(k), a);
        lemma_total_remove(staking, keys.remove(a), k);
        assert(keys.remove(k).remove(a) =~= keys.remove(a).remove(k));
    }
}

proof fn lemma_total_agree(m1: Map<Seq<char>, StakingView>, m2: Map<Seq<char>, StakingView>, keys: Set<Seq<char>>)
    requires
        keys.finite(),
        forall|k: Seq<char>| keys.contains(k) ==> recorded(m1, k) == recorded(m2, k),
    ensures
        records_total(m1, keys) == records_total(m2, keys),
    decreases keys.len(),
{
    if keys.len() != 0 {
        let k = keys.choose();
        assert(keys.contains(k));
        lemma_total_agree(m1, m2, keys.remove(k));
    }
}

/// Where only the record of `a` changes, the total moves as that record does.
proof fn lemma_total_update(m: Map<Seq<char>, StakingView>, a: Seq<char>, v: StakingView)
    requires
        m.dom().finite(),
    ensures
        m.insert(a, v).dom().finite(),
        all_recorded(m.insert(a, v)) + recorded(m, a) == all_recorded(m) + v.token_ids.len(),
{
    let m2 = m.insert(a, v);
    let rest = m.dom().remove(a);
    assert(m2.dom() =~= m.dom().insert(a));
    assert(m2.dom().remove(a) =~= rest);
    lemma_total_remove(m2, m2.dom(), a);
    lemma_total_agree(m, m2, rest);
    if m.dom().contains(a) {
        lemma_total_remove(m, m.dom(), a);
    } else {
        assert(m.dom() =~= rest);
    }
}

/// A request keeps the count of staked tokens equal to the number of tokens
/// the records list, provided the token it names is listed at most once in
/// the sender's record. (The owner's withdrawal does not keep it: it counts
/// one token less and leaves the records as they are.)
pub proof fn count_stays_with_records(
    s: StateView, now: u64, sender: Seq<char>, msg: ExecuteMsg,
    r: Result<ContractResponse, ContractError>, t: StateView,
)
    requires
        count_matches_records(s),
        execute_safe(s, now, sender, msg),
        execute_post(s, now, sender, msg, r, t),
        !(msg is WithdrawId),
        msg matches ExecuteMsg::Unstake { token_id } ==> (s.staking.contains_key(sender)
            ==> at_most_once(s.staking[sender].token_ids, token_id@)),
    ensures
        count_matches_records(t),
{
    match msg {
        ExecuteMsg::ReceiveNft(m) => {
            if r is Ok {
                let user = m.sender->Ok_0@;
                let v = staked(s, user, m.token_id@).staking[user];
                lemma_total_update(s.staking, user, v);
            }
        },
        ExecuteMsg::Unstake { token_id } => {
            if unstake_step(s, now, sender, token_id@) is Release {
                let l = s.staking[sender].token_ids;
                let i = choose|i: int| 0 <= i < l.len() && l[i] == token_id@;
                assert(held_once(l, token_id@, i));
                lemma_filter_once(l, token_id@, i);
                let v = released(s, sender, token_id@).staking[sender];
                lemma_total_update(s.staking, sender, v);
            }
        },
        _ => {},
    }
}

/// Every record lists its own address.
pub open spec fn records_keyed(staking: Map<Seq<char>, StakingView>) -> bool {
    forall|a: Seq<char>| staking.contains_key(a) ==> #[trigger] staking[a].address == a
}

/// A request keeps every record's address equal to the address it is
/// stored under.
pub proof fn records_stay_keyed(
    s: StateView, now: u64, sender: Seq<char>, msg: ExecuteMsg,
    r: Result<ContractResponse, ContractError>, t: StateView,
)
    requires
        records_keyed(s.staking),
        execute_post(s, now, sender, msg, r, t),
    ensures
        records_keyed(t.staking),
{
}

/// A request does what the handler of its kind does.
pub proof fn execute_acts_as_its_handler(
    s: StateView, now: u64, sender: Seq<char>, msg: ExecuteMsg,
    r: Result<ContractResponse, ContractError>, t: StateView,
)
    ensures
        execute_post(s, now, sender, msg, r, t) == match msg {
            ExecuteMsg::UpdateOwner { owner } => update_owner_post(s, sender, owner@, r, t),
            ExecuteMsg::UpdateCollectionAddress { collection_address } =>
                update_collection_post(s, sender, collection_address@, r, t),
            ExecuteMsg::UpdateLockTime { lock_time } => update_locktime_post(s, sender, lock_time, r, t),
            ExecuteMsg::UpdatedEnabled { enabled } => update_enabled_post(s, sender, enabled, r, t),
            ExecuteMsg::ReceiveNft(m) => receive_nft_post(s, sender, m, r, t),
            ExecuteMsg::Unstake { token_id } => unstake_post(s, now, sender, token_id@, r, t),
            ExecuteMsg::WithdrawId { token_id } => withdraw_post(s, sender, token_id@, r, t),
        },
{
}

proof fn lemma_filter_once_is_remove(l: Seq<Seq<char>>, token_id: Seq<char>, i: int)
    requires
        held_once(l, token_id, i),
    ensures
        l.filter(other_than(token_id)) == l.remove(i),
    decreases l.len(),
{
    reveal_with_fuel(Seq::<_>::filter, 1);
    let rest = l.drop_last();
    if i == l.len() - 1 {
        assert(!rest.contains(token_id)) by {
            if rest.contains(token_id) {
                let k = choose|k: int| 0 <= k < rest.len() && rest[k] == token_id;
                assert(l[k] == token_id);
            }
        }
        lemma_filter_without(rest, token_id);
        assert(l.remove(i) =~= rest);
    } else {
        assert(held_once(rest, token_id, i)) by {
            assert forall|j: int| 0 <= j < rest.len() && j != i implies rest[j] != token_id by {
                assert(rest[j] == l[j]);
            }
        }
        lemma_filter_once_is_remove(rest, token_id, i);
        assert(l.last() != token_id) by {
            assert(l.last() == l[l.len() - 1]);
        }
        assert(rest.remove(i).push(l.last()) =~= l.remove(i));
    }
}

/// A delivery that the collection makes while staking is open, for a valid
/// holder address and a stake request, always succeeds, whatever the
/// holder's record holds: the token is appended at the end of the holder's
/// record (a new record under the holder's address where there was none),
/// one token more is counted, and nothing else changes.
pub proof fn valid_delivery_always_stakes(
    s: StateView, sender: Seq<char>, m: NftReceipt,
    r: Result<ContractResponse, ContractError>, t: StateView,
)
    requires
        receive_nft_post(s, sender, m, r, t),
        s.config.enabled,
        sender == s.config.collection_address,
        m.sender is Ok,
        m.msg is Ok,
        s.config.total_supply < u64::MAX,
    ensures
        r is Ok,
        r->Ok_0@.messages == Seq::<(Seq<char>, Seq<u8>)>::empty(),
        r->Ok_0@.attributes == seq![
            ("action"@, "execute_receive"@),
            ("token_id"@, m.token_id@),
            ("user_address"@, m.sender->Ok_0@),
        ],
        t.staking.contains_key(m.sender->Ok_0@),
        t.staking[m.sender->Ok_0@].token_ids == (if s.staking.contains_key(m.sender->Ok_0@) {
            s.staking[m.sender->Ok_0@].token_ids
        } else {
            Seq::<Seq<char>>::empty()
        }).push(m.token_id@),
        t.staking[m.sender->Ok_0@].address == (if s.staking.contains_key(m.sender->Ok_0@) {
            s.staking[m.sender->Ok_0@].address
        } else {
            m.sender->Ok_0@
        }),
        forall|a: Seq<char>| a != m.sender->Ok_0@ ==> #[trigger] t.staking.contains_key(a) == s.staking.contains_key(a),
        forall|a: Seq<char>| a != m.sender->Ok_0@ && s.staking.contains_key(a) ==> #[trigger] t.staking[a] == s.staking[a],
        t.unlock_time == s.unlock_time,
        t.config.total_supply == s.config.total_supply + 1,
        t.config.owner == s.config.owner,
        t.config.collection_address == s.config.collection_address,
        t.config.lock_time == s.config.lock_time,
        t.config.enabled == s.config.enabled,
{
    let resp = r->Ok_0;
    assert(resp@.attributes =~= seq![
        ("action"@, "execute_receive"@),
        ("token_id"@, m.token_id@),
        ("user_address"@, m.sender->Ok_0@),
    ]);
    assert(resp@.messages =~= Seq::<(Seq<char>, Seq<u8>)>::empty());
    let user = m.sender->Ok_0@;
    if !s.staking.contains_key(user) {
        assert(seq![m.token_id@] =~= Seq::<Seq<char>>::empty().push(m.token_id@));
    }
}

/// The owner's withdrawal always succeeds: it sends the token to the owner
/// and counts one token less, and leaves the staking records, the unlock
/// times and the other settings exactly as they were. Anyone else is refused
/// as unauthorized and nothing changes.
pub proof fn withdrawal_changes_only_the_count(
    s: StateView, sender: Seq<char>, token_id: Seq<char>,
    r: Result<ContractResponse, ContractError>, t: StateView,
)
    requires
        withdraw_post(s, sender, token_id, r, t),
        sender == s.config.owner ==> s.config.total_supply > 0,
    ensures
        sender == s.config.owner ==> {
            &&& r is Ok
            &&& r->Ok_0@.messages == seq![(s.config.collection_address, transfer_nft_json(token_id, sender))]
            &&& r->Ok_0@.attributes == seq![("action"@, "withdraw"@), ("token_id"@, token_id)]
            &&& t.staking == s.staking
            &&& t.unlock_time == s.unlock_time
            &&& t.config.total_supply == s.config.total_supply - 1
            &&& t.config.owner == s.config.owner
            &&& t.config.collection_address == s.config.collection_address
            &&& t.config.lock_time == s.config.lock_time
            &&& t.config.enabled == s.config.enabled
        },
        sender != s.config.owner ==> (r matches Err(e) && e is Unauthorized) && t == s,
{
    if sender == s.config.owner {
        let resp = r->Ok_0;
        assert(resp@.messages =~= seq![(s.config.collection_address, transfer_nft_json(token_id, sender))]);
        assert(resp@.attributes =~= seq![("action"@, "withdraw"@), ("token_id"@, token_id)]);
    }
}

/// A new contract holds no staking record and no unstake request, for any
/// address or token; its owner is the creator, staking is closed and nothing
/// is counted.
pub proof fn new_contract_holds_nothing(owner: Seq<char>, collection_address: Seq<char>, lock_time: u64, key: Seq<char>)
    ensures
        !initial_state(owner, collection_address, lock_time).staking.contains_key(key),
        !initial_state(owner, collection_address, lock_time).unlock_time.contains_key(key),
        initial_state(owner, collection_address, lock_time).staking == Map::<Seq<char>, StakingView>::empty(),
        initial_state(owner, collection_address, lock_time).unlock_time == Map::<Seq<char>, u64>::empty(),
        initial_state(owner, collection_address, lock_time).config.owner == owner,
        initial_state(owner, collection_address, lock_time).config.collection_address == collection_address,
        initial_state(owner, collection_address, lock_time).config.lock_time == lock_time,
        !initial_state(owner, collection_address, lock_time).config.enabled,
        initial_state(owner, collection_address, lock_time).config.total_supply == 0,
{
}

/// With a lock time, the first unstake request for a token always succeeds,
/// whoever sends it and whatever the records hold: it records the block time
/// for the token and changes nothing else.
pub proof fn first_locked_request_is_recorded(
    s: StateView, now: u64, sender: Seq<char>, token_id: Seq<char>,
    r: Result<ContractResponse, ContractError>, t: StateView,
)
    requires
        unstake_post(s, now, sender, token_id, r, t),
        s.config.lock_time != 0,
        !s.unlock_time.contains_key(token_id),
    ensures
        r is Ok,
        r->Ok_0@.messages == Seq::<(Seq<char>, Seq<u8>)>::empty(),
        r->Ok_0@.attributes == seq![("action"@, "create_unstake"@), ("token_id"@, token_id)],
        t.unlock_time == s.unlock_time.insert(token_id, now),
        t.staking == s.staking,
        t.config == s.config,
{
    let resp = r->Ok_0;
    assert(resp@.messages =~= Seq::<(Seq<char>, Seq<u8>)>::empty());
    assert(resp@.attributes =~= seq![("action"@, "create_unstake"@), ("token_id"@, token_id)]);
}

/// When the lock has passed (or there is none) and the sender's record holds
/// the token, an unstake request always succeeds: the token goes back to the
/// sender, every occurrence of it leaves the sender's record while the other
/// tokens keep their order, one token less is counted, and the other
/// records, the unlock times and the settings stay as they were.
pub proof fn release_keeps_the_order(
    s: StateView, now: u64, sender: Seq<char>, token_id: Seq<char>,
    r: Result<ContractResponse, ContractError>, t: StateView,
)
    requires
        unstake_post(s, now, sender, token_id, r, t),
        s.config.lock_time == 0 || (s.unlock_time.contains_key(token_id)
            && now > s.unlock_time[token_id] + s.config.lock_time),
        s.staking.contains_key(sender),
        s.staking[sender].token_ids.contains(token_id),
        s.config.total_supply > 0,
    ensures
        r is Ok,
        r->Ok_0@.messages == seq![(s.config.collection_address, transfer_nft_json(token_id, sender))],
        r->Ok_0@.attributes == seq![("action"@, "unstake"@), ("token_id"@, token_id)],
        t.staking.contains_key(sender),
        t.staking[sender].address == s.staking[sender].address,
        t.staking[sender].token_ids == s.staking[sender].token_ids.filter(|x: Seq<char>| x != token_id),
        !t.staking[sender].token_ids.contains(token_id),
        forall|a: Seq<char>| a != sender ==> #[trigger] t.staking.contains_key(a) == s.staking.contains_key(a),
        forall|a: Seq<char>| a != sender && s.staking.contains_key(a) ==> #[trigger] t.staking[a] == s.staking[a],
        t.unlock_time == s.unlock_time,
        t.config.total_supply == s.config.total_supply - 1,
        t.config.owner == s.config.owner,
        t.config.collection_address == s.config.collection_address,
        t.config.lock_time == s.config.lock_time,
        t.config.enabled == s.config.enabled,
{
    let resp = r->Ok_0;
    assert(resp@.messages =~= seq![(s.config.collection_address, transfer_nft_json(token_id, sender))]);
    assert(resp@.attributes =~= seq![("action"@, "unstake"@), ("token_id"@, token_id)]);
    assert(other_than(token_id) == (|x: Seq<char>| x != token_id));
    released_token_is_gone(s, sender, token_id);
}

/// Releasing a token that the sender's record lists once, at position `i`,
/// takes exactly that entry out: the tokens before and after it stay in
/// their places and order.
pub proof fn release_of_a_single_copy_removes_it_in_place(
    s: StateView, now: u64, sender: Seq<char>, token_id: Seq<char>, i: int,
    r: Result<ContractResponse, ContractError>, t: StateView,
)
    requires
        unstake_post(s, now, sender, token_id, r, t),
        s.config.lock_time == 0 || (s.unlock_time.contains_key(token_id)
            && now > s.unlock_time[token_id] + s.config.lock_time),
        s.staking.contains_key(sender),
        held_once(s.staking[sender].token_ids, token_id, i),
        s.config.total_supply > 0,
    ensures
        r is Ok,
        t.staking[sender].token_ids == s.staking[sender].token_ids.remove(i),
        t.staking[sender].token_ids.len() == s.staking[sender].token_ids.len() - 1,
{
    let l = s.staking[sender].token_ids;
    assert(l.contains(token_id)) by { assert(l[i] == token_id); }
    lemma_filter_once_is_remove(l, token_id, i);
}

} // verus!



