use vstd::prelude::*;
use crate::principal::{Principal, PrincipalId, PrincipalList};
use crate::record_map::RecordMap;
use crate::sensory_evaluation::types::{Stake, StakeList, TokenInfo, TokenInfoView};

verus! {

/// The mathematical value of the token's durable state.
#[verifier::ext_equal]
pub struct SensoryState {
    /// The token's parameters, once initialization has fixed them.
    pub token: Option<TokenInfoView>,
    /// The administrators; none before initialization.
    pub admins: Seq<PrincipalId>,
    pub total_supply: u128,
    /// The identifier that the next stake will get.
    pub next_stake_id: u32,
    pub balances: Map<PrincipalId, u128>,
    /// The stakes of each owner, oldest first.
    pub stakes: Map<PrincipalId, Seq<Stake>>,
}

impl SensoryState {
    /// The state before anything has been stored.
    pub open spec fn empty() -> SensoryState {
        SensoryState {
            token: None,
            admins: Seq::empty(),
            total_supply: 0,
            next_stake_id: 1,
            balances: Map::empty(),
            stakes: Map::empty(),
        }
    }

    /// Whether `who` is an administrator.
    pub open spec fn is_admin(self, who: PrincipalId) -> bool {
        self.admins.contains(who)
    }

    /// The balance of `who`; zero where none is stored.
    pub open spec fn balance_of(self, who: PrincipalId) -> u128 {
        if self.balances.contains_key(who) {
            self.balances[who]
        } else {
            0
        }
    }

    /// The stakes of `who`, oldest first.
    pub open spec fn stakes_of(self, who: PrincipalId) -> Seq<Stake> {
        if self.stakes.contains_key(who) {
            self.stakes[who]
        } else {
            Seq::empty()
        }
    }
}

/// The durable records of one token.
pub struct SensoryStorage {
    token: Option<TokenInfo>,
    admins: PrincipalList,
    total_supply: u128,
    next_stake_id: u32,
    balances: RecordMap<Principal, u128>,
    stakes: RecordMap<Principal, StakeList>,
}

impl View for SensoryStorage {
    type V = SensoryState;

    closed spec fn view(&self) -> SensoryState {
        SensoryState {
            token: match self.token {
                Some(token) => Some(token@),
                None => None,
            },
            admins: self.admins@,
            total_supply: self.total_supply,
            next_stake_id: self.next_stake_id,
            balances: self.balances@,
            stakes: self.stakes@,
        }
    }
}

impl SensoryStorage {
    /// No table holds a key twice. Every function of this module keeps this.
    pub closed spec fn wf(&self) -> bool {
        &&& self.balances.wf()
        &&& self.stakes.wf()
    }

    /// Storage that holds no record; the stake counter stands at 1.
    pub fn new() -> (storage: SensoryStorage)
        ensures
            storage.wf(),
            storage@ == SensoryState::empty(),
    {
        SensoryStorage {
            token: None,
            admins: PrincipalList::new(),
            total_supply: 0,
            next_stake_id: 1,
            balances: RecordMap::new(),
            stakes: RecordMap::new(),
        }
    }
}

/// The token's parameters, once they have been fixed.
pub fn get_token_info(storage: &SensoryStorage) -> (token: Option<TokenInfo>)
    ensures
        match token {
            Some(info) => storage@.token == Some(info@),
            None => storage@.token is None,
        },
{
    match &storage.token {
        Some(token) => Some(token.clone()),
        None => None,
    }
}

/// Fixes the token's parameters.
pub fn store_token_info(storage: &mut SensoryStorage, token: TokenInfo)
    requires
        old(storage).wf(),
    ensures
        final(storage).wf(),
        final(storage)@ == (SensoryState { token: Some(token@), ..old(storage)@ }),
{
    storage.token = Some(token);
}

/// The maximum supply, once it has been fixed.
pub fn get_max_supply(storage: &SensoryStorage) -> (max_supply: Option<u128>)
    ensures
        match max_supply {
            Some(value) => storage@.token matches Some(token) && token.max_supply == value,
            None => storage@.token is None,
        },
{
    match &storage.token {
        Some(token) => Some(token.max_supply),
        None => None,
    }
}

/// The administrators.
pub fn load_admins(storage: &SensoryStorage) -> (admins: PrincipalList)
    ensures
        admins@ == storage@.admins,
{
    storage.admins.clone()
}

/// Replaces the list of administrators.
pub fn store_admins(storage: &mut SensoryStorage, admins: PrincipalList)
    requires
        old(storage).wf(),
    ensures
        final(storage).wf(),
        final(storage)@ == (SensoryState { admins: admins@, ..old(storage)@ }),
{
    storage.admins = admins;
}

/// The total supply.
pub fn load_total_supply(storage: &SensoryStorage) -> (total: u128)
    ensures
        total == storage@.total_supply,
{
    storage.total_supply
}

/// Sets the total supply.
pub fn store_total_supply(storage: &mut SensoryStorage, total: u128)
    requires
        old(storage).wf(),
    ensures
        final(storage).wf(),
        final(storage)@ == (SensoryState { total_supply: total, ..old(storage)@ }),
{
    storage.total_supply = total;
}

/// The identifier that the next stake will get.
pub fn load_next_stake_id(storage: &SensoryStorage) -> (id: u32)
    ensures
        id == storage@.next_stake_id,
{
    storage.next_stake_id
}

/// Sets the stake counter.
pub fn store_next_stake_id(storage: &mut SensoryStorage, id: u32)
    requires
        old(storage).wf(),
    ensures
        final(storage).wf(),
        final(storage)@ == (SensoryState { next_stake_id: id, ..old(storage)@ }),
{
    storage.next_stake_id = id;
}

/// The balance of `user`; zero where none is stored.
pub fn load_balance(storage: &SensoryStorage, user: &Principal) -> (balance: u128)
    requires
        storage.wf(),
    ensures
        balance == storage@.balance_of(user@),
{
    match storage.balances.get(user) {
        Some(balance) => *balance,
        None => 0,
    }
}

/// Sets the balance of `user`.
pub fn store_balance(storage: &mut SensoryStorage, user: &Principal, balance: u128)
    requires
        old(storage).wf(),
    ensures
        final(storage).wf(),
        final(storage)@ == (SensoryState {
            balances: old(storage)@.balances.insert(user@, balance),
            ..old(storage)@
        }),
{
    storage.balances.insert(user.clone(), balance);
}

/// The stakes of `user`, oldest first.
pub fn load_stakes(storage: &SensoryStorage, user: &Principal) -> (stakes: StakeList)
    requires
        storage.wf(),
    ensures
        stakes@ == storage@.stakes_of(user@),
{
    match storage.stakes.get(user) {
        Some(stakes) => stakes.clone(),
        None => StakeList::new(),
    }
}

/// Replaces the stakes of `user`.
pub fn store_stakes(storage: &mut SensoryStorage, user: &Principal, stakes: StakeList)
    requires
        old(storage).wf(),
    ensures
        final(storage).wf(),
        final(storage)@ == (SensoryState {
            stakes: old(storage)@.stakes.insert(user@, stakes@),
            ..old(storage)@
        }),
{
    storage.stakes.insert(user.clone(), stakes);
}

} // verus!
