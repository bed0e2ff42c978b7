use vstd::prelude::*;

verus! {

/// Why a call on the token did not go through.
#[derive(Clone, Copy, PartialEq, Eq, Structural, Debug)]
pub enum SensoryError {
    /// Initialization was asked for without any administrator.
    NoAdmins,
    /// The caller is not an administrator.
    NotAdmin,
    /// The principal to be added is an administrator already.
    AdminExists,
    /// The last administrator cannot be removed.
    LastAdmin,
    /// The token's parameters have not been fixed.
    NotInitialized,
    /// Minting would take the supply above its maximum.
    SupplyExceeded,
    /// The balance does not cover the amount.
    InsufficientBalance,
    /// The staker has no stake at the given place.
    StakeNotFound,
    /// The stake's duration has not passed.
    StakeLocked,
    /// The stake has been paid back already.
    StakeClaimed,
}

/// An amount set aside by its owner for a duration.
#[derive(Clone, Copy, PartialEq, Eq, Structural, Debug)]
pub struct Stake {
    pub id: u32,
    pub amount: u128,
    pub start_time: u64,
    /// Duration in seconds.
    pub duration: u64,
    /// Whether the amount has gone back to its owner.
    pub claimed: bool,
}

/// The stakes of one owner, oldest first.
#[derive(Debug)]
pub struct StakeList {
    pub items: Vec<Stake>,
}

impl View for StakeList {
    type V = Seq<Stake>;

    open spec fn view(&self) -> Seq<Stake> {
        self.items@
    }
}

impl StakeList {
    /// The empty list.
    pub fn new() -> (list: StakeList)
        ensures
            list@ == Seq::<Stake>::empty(),
    {
        StakeList { items: Vec::new() }
    }

    /// The number of stakes.
    pub fn len(&self) -> (n: usize)
        ensures
            n == self@.len(),
    {
        self.items.len()
    }

    /// The stake at index `i`, if there is one.
    pub fn get(&self, i: usize) -> (stake: Option<Stake>)
        ensures
            stake == if i < self@.len() {
                Some(self@[i as int])
            } else {
                None
            },
    {
        if i < self.items.len() {
            Some(self.items[i])
        } else {
            None
        }
    }

    /// Appends `stake` at the end.
    pub fn push_back(&mut self, stake: Stake)
        ensures
            final(self)@ == old(self)@.push(stake),
    {
        self.items.push(stake);
    }

    /// Replaces the stake at index `i`.
    pub fn set(&mut self, i: usize, stake: Stake)
        requires
            i < old(self)@.len(),
        ensures
            final(self)@ == old(self)@.update(i as int, stake),
    {
        self.items.set(i, stake);
    }
}

impl Clone for StakeList {
    fn clone(&self) -> (copy: StakeList)
        ensures
            copy@ == self@,
    {
        let mut copy = StakeList::new();
        let mut i: usize = 0;
        while i < self.items.len()
            invariant
                i <= self.items.len(),
                copy@ == self@.take(i as int),
            decreases self.items.len() - i,
        {
            copy.push_back(self.items[i]);
            assert(self@.take(i as int).push(self@[i as int]) =~= self@.take(i + 1));
            i += 1;
        }
        assert(self@.take(self@.len() as int) =~= self@);
        copy
    }
}

/// What initialization fixes about the token.
#[derive(Debug)]
pub struct TokenInfo {
    pub name: String,
    pub symbol: String,
    pub max_supply: u128,
    pub decimals: u32,
}

/// The mathematical value of a [`TokenInfo`].
pub struct TokenInfoView {
    pub name: Seq<char>,
    pub symbol: Seq<char>,
    pub max_supply: u128,
    pub decimals: u32,
}

impl View for TokenInfo {
    type V = TokenInfoView;

    open spec fn view(&self) -> TokenInfoView {
        TokenInfoView {
            name: self.name@,
            symbol: self.symbol@,
            max_supply: self.max_supply,
            decimals: self.decimals,
        }
    }
}

impl Clone for TokenInfo {
    fn clone(&self) -> (copy: TokenInfo)
        ensures
            copy@ == self@,
    {
        TokenInfo {
            name: self.name.clone(),
            symbol: self.symbol.clone(),
            max_supply: self.max_supply,
            decimals: self.decimals,
        }
    }
}

} // verus!
