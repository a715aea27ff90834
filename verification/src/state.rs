use vstd::prelude::*;
use crate::strmap::StrMap;

verus! {

/// The contract's configuration.
#[derive(Debug)]
pub struct Config {
    /// The NFT collection whose tokens may be staked.
    pub collection_address: String,
    /// The address allowed to change the configuration and to withdraw tokens.
    pub owner: String,
    /// How many seconds an unstake request has to wait; 0 means no wait.
    pub lock_time: u64,
    /// Whether staking is open.
    pub enabled: bool,
    /// How many tokens the contract counts as staked.
    pub total_supply: u64,
}

/// The view of a [`Config`].
pub struct ConfigView {
    pub collection_address: Seq<char>,
    pub owner: Seq<char>,
    pub lock_time: u64,
    pub enabled: bool,
    pub total_supply: u64,
}

impl View for Config {
    type V = ConfigView;

    open spec fn view(&self) -> ConfigView {
        ConfigView {
            collection_address: self.collection_address@,
            owner: self.owner@,
            lock_time: self.lock_time,
            enabled: self.enabled,
            total_supply: self.total_supply,
        }
    }
}

impl Config {
    /// A copy of this configuration.
    pub fn duplicate(&self) -> (r: Config)
        ensures
            r@ == self@,
    {
        Config {
            collection_address: self.collection_address.clone(),
            owner: self.owner.clone(),
            lock_time: self.lock_time,
            enabled: self.enabled,
            total_supply: self.total_supply,
        }
    }
}

/// The tokens that one address has staked, in the order in which they came.
#[derive(Debug)]
pub struct StakingInfo {
    pub address: String,
    pub token_ids: Vec<String>,
}

/// The view of a [`StakingInfo`].
pub struct StakingView {
    pub address: Seq<char>,
    pub token_ids: Seq<Seq<char>>,
}

/// The texts of a list of strings.
pub open spec fn texts(v: Seq<String>) -> Seq<Seq<char>> {
    v.map_values(|s: String| s@)
}

impl View for StakingInfo {
    type V = StakingView;

    open spec fn view(&self) -> StakingView {
        StakingView { address: self.address@, token_ids: texts(self.token_ids@) }
    }
}

impl StakingInfo {
    /// A copy of this record.
    pub fn duplicate(&self) -> (r: StakingInfo)
        ensures
            r@ == self@,
    {
        StakingInfo { address: self.address.clone(), token_ids: copy_strings(&self.token_ids) }
    }
}

/// The test that keeps every text but `token_id`.
pub open spec fn other_than(token_id: Seq<char>) -> spec_fn(Seq<char>) -> bool {
    |t: Seq<char>| t != token_id
}

/// A copy of a list of strings.
pub fn copy_strings(v: &Vec<String>) -> (r: Vec<String>)
    ensures
        texts(r@) == texts(v@),
{
    let mut r: Vec<String> = Vec::new();
    let mut i: usize = 0;
    while i < v.len()
        invariant
            i <= v@.len(),
            texts(r@) =~= texts(v@.take(i as int)),
        decreases v@.len() - i,
    {
        let ghost old_r = r@;
        let c = v[i].clone();
        r.push(c);
        assert(texts(r@) =~= texts(old_r).push(v@[i as int]@));
        assert(v@.take(i + 1) =~= v@.take(i as int).push(v@[i as int]));
        assert(texts(v@.take(i + 1)) =~= texts(v@.take(i as int)).push(v@[i as int]@));
        i = i + 1;
    }
    assert(v@.take(v@.len() as int) =~= v@);
    r
}

/// Whether `token_id` is in the list.
pub fn contains_string(v: &Vec<String>, token_id: &String) -> (r: bool)
    ensures
        r == texts(v@).contains(token_id@),
{
    let mut i: usize = 0;
    while i < v.len()
        invariant
            i <= v@.len(),
            forall|j: int| 0 <= j < i ==> #[trigger] v@[j]@ != token_id@,
        decreases v@.len() - i,
    {
        if v[i] == *token_id {
            assert(texts(v@)[i as int] == token_id@);
            return true;
        }
        i = i + 1;
    }
    assert forall|j: int| 0 <= j < texts(v@).len() implies texts(v@)[j] != token_id@ by {
        assert(texts(v@)[j] == v@[j]@);
    }
    false
}

/// The list without any occurrence of `token_id`, the others in their order:
/// what `Vec::retain` keeps with the test `x != token_id`.
pub fn remove_string(v: &Vec<String>, token_id: &String) -> (r: Vec<String>)
    ensures
        texts(r@) == texts(v@).filter(other_than(token_id@)),
{
    let ghost pred = other_than(token_id@);
    let mut r: Vec<String> = Vec::new();
    let mut i: usize = 0;
    while i < v.len()
        invariant
            i <= v@.len(),
            pred == other_than(token_id@),
            texts(r@) =~= texts(v@.take(i as int)).filter(pred),
        decreases v@.len() - i,
    {
        assert(texts(v@.take(i + 1)).drop_last() =~= texts(v@.take(i as int)));
        assert(texts(v@.take(i + 1)).last() == v@[i as int]@);
        let ghost old_r = r@;
        if v[i] != *token_id {
            let c = v[i].clone();
            r.push(c);
            assert(texts(r@) =~= texts(old_r).push(v@[i as int]@));
        }
        let ghost next = texts(v@.take(i + 1));
        proof { reveal_with_fuel(Seq::<_>::filter, 1); }
        assert(next.filter(pred) == if pred(next.last()) {
            next.drop_last().filter(pred).push(next.last())
        } else {
            next.drop_last().filter(pred)
        });
        i = i + 1;
    }
    assert(v@.take(v@.len() as int) =~= v@);
    r
}

/// The name and version of the code that runs the contract, as the chain records it.
#[derive(Debug)]
pub struct ContractVersion {
    pub contract: String,
    pub version: String,
}

/// What the contract keeps between requests: its configuration, the staking
/// record of each address, and the time at which an unstake of each token was
/// first requested.
#[derive(Debug)]
pub struct ContractState {
    pub config: Config,
    pub staking: StrMap<StakingInfo>,
    pub unlock_time: StrMap<u64>,
}

/// The view of a [`ContractState`].
pub struct StateView {
    pub config: ConfigView,
    pub staking: Map<Seq<char>, StakingView>,
    pub unlock_time: Map<Seq<char>, u64>,
}

impl View for ContractState {
    type V = StateView;

    open spec fn view(&self) -> StateView {
        StateView { config: self.config@, staking: self.staking@, unlock_time: self.unlock_time@ }
    }
}

impl ContractState {
    /// A state with the given configuration, no staking record and no unstake request.
    pub fn new(config: Config) -> (r: ContractState)
        ensures
            r@ == (StateView {
                config: config@,
                staking: Map::empty(),
                unlock_time: Map::empty(),
            }),
    {
        ContractState { config, staking: StrMap::new(), unlock_time: StrMap::new() }
    }
}

} // verus!
