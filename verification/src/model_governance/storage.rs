use vstd::prelude::*;
use crate::model_governance::types::{
    Config, ConfigView, GovernanceError, Proposal, ProposalView, Vote, VoteKey, VoteView,
};
use crate::principal::{Principal, PrincipalId, PrincipalList};
use crate::record_map::RecordMap;

verus! {

/// The mathematical value of the engine's durable state: every record, by its key.
#[verifier::ext_equal]
pub struct GovernanceState {
    /// The parameters, once initialization has fixed them.
    pub config: Option<ConfigView>,
    /// The identifier that the next proposal will get.
    pub next_proposal_id: u32,
    pub proposals: Map<u32, ProposalView>,
    /// The vote records, by proposal and voter.
    pub votes: Map<(u32, PrincipalId), VoteView>,
    /// For each proposal, those who voted on it, in the order in which they did.
    pub voters: Map<u32, Seq<PrincipalId>>,
    pub balances: Map<PrincipalId, u32>,
    /// The registry of token holders, over which the quorum denominator is taken.
    pub token_holders: Seq<PrincipalId>,
}

/// The sum of the weights in `balances` of the entries of `holders`, each entry counted
/// as often as it occurs.
pub open spec fn sum_of_weights(holders: Seq<PrincipalId>, balances: Map<PrincipalId, u32>) -> nat
    decreases holders.len(),
{
    if holders.len() == 0 {
        0
    } else {
        let last = holders.last();
        let weight: nat = if balances.contains_key(last) {
            balances[last] as nat
        } else {
            0
        };
        sum_of_weights(holders.drop_last(), balances) + weight
    }
}

impl GovernanceState {
    /// The state before anything has been stored.
    pub open spec fn empty() -> GovernanceState {
        GovernanceState {
            config: None,
            next_proposal_id: 1,
            proposals: Map::empty(),
            votes: Map::empty(),
            voters: Map::empty(),
            balances: Map::empty(),
            token_holders: Seq::empty(),
        }
    }

    /// Whether `who` is the administrator.
    pub open spec fn is_admin(self, who: PrincipalId) -> bool {
        self.config matches Some(config) && config.admin == who
    }

    /// The token weight of `who`: the stored balance, zero where none is stored.
    pub open spec fn weight_of(self, who: PrincipalId) -> u32 {
        if self.balances.contains_key(who) {
            self.balances[who]
        } else {
            0
        }
    }

    /// Those who voted on proposal `id`, in order.
    pub open spec fn voters_of(self, id: u32) -> Seq<PrincipalId> {
        if self.voters.contains_key(id) {
            self.voters[id]
        } else {
            Seq::empty()
        }
    }

    /// The quorum denominator: the current weight of every registered holder, summed.
    pub open spec fn total_registered_weight(self) -> nat {
        sum_of_weights(self.token_holders, self.balances)
    }
}

/// The durable records of one governance engine.
pub struct GovernanceStorage {
    config: Option<Config>,
    next_proposal_id: u32,
    proposals: RecordMap<u32, Proposal>,
    votes: RecordMap<VoteKey, Vote>,
    voters: RecordMap<u32, PrincipalList>,
    balances: RecordMap<Principal, u32>,
    token_holders: PrincipalList,
}

impl View for GovernanceStorage {
    type V = GovernanceState;

    closed spec fn view(&self) -> GovernanceState {
        GovernanceState {
            config: match self.config {
                Some(config) => Some(config@),
                None => None,
            },
            next_proposal_id: self.next_proposal_id,
            proposals: self.proposals@,
            votes: self.votes@,
            voters: self.voters@,
            balances: self.balances@,
            token_holders: self.token_holders@,
        }
    }
}

impl GovernanceStorage {
    /// No table holds a key twice, and every proposal is stored under its own
    /// identifier. Every function of this module keeps this.
    pub closed spec fn wf(&self) -> bool {
        &&& self.proposals.wf()
        &&& self.votes.wf()
        &&& self.voters.wf()
        &&& self.balances.wf()
        &&& forall|id: u32| #[trigger]
            self.proposals@.contains_key(id) ==> self.proposals@[id].id == id
    }

    /// Storage that holds no record; the proposal counter stands at 1.
    pub fn new() -> (storage: GovernanceStorage)
        ensures
            storage.wf(),
            storage@ == GovernanceState::empty(),
    {
        GovernanceStorage {
            config: None,
            next_proposal_id: 1,
            proposals: RecordMap::new(),
            votes: RecordMap::new(),
            voters: RecordMap::new(),
            balances: RecordMap::new(),
            token_holders: PrincipalList::new(),
        }
    }
}

/// Whether the parameters have been fixed.
pub fn is_initialized(storage: &GovernanceStorage) -> (initialized: bool)
    ensures
        initialized == storage@.config is Some,
{
    storage.config.is_some()
}

/// The parameters, once they have been fixed.
pub fn get_config(storage: &GovernanceStorage) -> (config: Option<Config>)
    ensures
        match config {
            Some(found) => storage@.config == Some(found@),
            None => storage@.config is None,
        },
{
    match &storage.config {
        Some(config) => Some(config.clone()),
        None => None,
    }
}

/// Fixes the parameters, replacing those that were there.
pub fn store_config(storage: &mut GovernanceStorage, config: Config)
    requires
        old(storage).wf(),
    ensures
        final(storage).wf(),
        final(storage)@ == (GovernanceState { config: Some(config@), ..old(storage)@ }),
{
    storage.config = Some(config);
}

/// Whether `address` is the administrator. Before initialization nobody is.
pub fn is_admin(storage: &GovernanceStorage, address: &Principal) -> (admin: bool)
    ensures
        admin == storage@.is_admin(address@),
{
    match &storage.config {
        Some(config) => config.admin == *address,
        None => false,
    }
}

/// The identifier that the next proposal will get. The counter stays as it is.
pub fn peek_next_proposal_id(storage: &GovernanceStorage) -> (id: u32)
    ensures
        id == storage@.next_proposal_id,
{
    storage.next_proposal_id
}

/// Sets the proposal counter.
pub fn store_next_proposal_id(storage: &mut GovernanceStorage, id: u32)
    requires
        old(storage).wf(),
    ensures
        final(storage).wf(),
        final(storage)@ == (GovernanceState { next_proposal_id: id, ..old(storage)@ }),
{
    storage.next_proposal_id = id;
}

/// Hands out the next proposal identifier and advances the counter by one.
pub fn next_proposal_id(storage: &mut GovernanceStorage) -> (id: u32)
    requires
        old(storage).wf(),
        old(storage)@.next_proposal_id < u32::MAX,
    ensures
        final(storage).wf(),
        id == old(storage)@.next_proposal_id,
        final(storage)@ == (GovernanceState { next_proposal_id: (id + 1) as u32, ..old(storage)@ }),
{
    let id = storage.next_proposal_id;
    storage.next_proposal_id = id + 1;
    id
}

/// The proposal stored under `proposal_id`.
pub fn get_proposal(storage: &GovernanceStorage, proposal_id: u32) -> (found: Result<
    Proposal,
    GovernanceError,
>)
    requires
        storage.wf(),
    ensures
        match found {
            Ok(proposal) => storage@.proposals.contains_key(proposal_id)
                && proposal@ == storage@.proposals[proposal_id] && proposal.id == proposal_id,
            Err(error) => !storage@.proposals.contains_key(proposal_id) && error
                == GovernanceError::NotFound,
        },
{
    match storage.proposals.get(&proposal_id) {
        Some(proposal) => Ok(proposal.clone()),
        None => Err(GovernanceError::NotFound),
    }
}

/// Stores `proposal` under its identifier, replacing the record that was there.
pub fn store_proposal(storage: &mut GovernanceStorage, proposal: &Proposal)
    requires
        old(storage).wf(),
    ensures
        final(storage).wf(),
        final(storage)@ == (GovernanceState {
            proposals: old(storage)@.proposals.insert(proposal.id, proposal@),
            ..old(storage)@
        }),
{
    storage.proposals.insert(proposal.id, proposal.clone());
}

/// The vote that `voter` cast on proposal `proposal_id`, if any.
pub fn get_vote(storage: &GovernanceStorage, proposal_id: u32, voter: &Principal) -> (found:
    Option<Vote>)
    requires
        storage.wf(),
    ensures
        match found {
            Some(vote) => storage@.votes.contains_key((proposal_id, voter@)) && vote@
                == storage@.votes[(proposal_id, voter@)],
            None => !storage@.votes.contains_key((proposal_id, voter@)),
        },
{
    let key = VoteKey { proposal_id, voter: voter.clone() };
    match storage.votes.get(&key) {
        Some(vote) => Some(vote.clone()),
        None => None,
    }
}

/// Stores `vote` under the proposal and its voter, replacing the record that was there.
pub fn store_vote(storage: &mut GovernanceStorage, proposal_id: u32, vote: &Vote)
    requires
        old(storage).wf(),
    ensures
        final(storage).wf(),
        final(storage)@ == (GovernanceState {
            votes: old(storage)@.votes.insert((proposal_id, vote.voter@), vote@),
            ..old(storage)@
        }),
{
    let key = VoteKey { proposal_id, voter: vote.voter.clone() };
    storage.votes.insert(key, vote.clone());
}

/// Those who voted on proposal `proposal_id`, in order; empty where none is stored.
pub fn get_voters(storage: &GovernanceStorage, proposal_id: u32) -> (voters: PrincipalList)
    requires
        storage.wf(),
    ensures
        voters@ == storage@.voters_of(proposal_id),
{
    match storage.voters.get(&proposal_id) {
        Some(voters) => voters.clone(),
        None => PrincipalList::new(),
    }
}

/// Stores the list of those who voted on proposal `proposal_id`.
pub fn store_voters(storage: &mut GovernanceStorage, proposal_id: u32, voters: &PrincipalList)
    requires
        old(storage).wf(),
    ensures
        final(storage).wf(),
        final(storage)@ == (GovernanceState {
            voters: old(storage)@.voters.insert(proposal_id, voters@),
            ..old(storage)@
        }),
{
    storage.voters.insert(proposal_id, voters.clone());
}

/// The token balance of `address`; zero where none is stored.
pub fn get_token_balance(storage: &GovernanceStorage, address: &Principal) -> (balance: u32)
    requires
        storage.wf(),
    ensures
        balance == storage@.weight_of(address@),
{
    match storage.balances.get(address) {
        Some(balance) => *balance,
        None => 0,
    }
}

/// Sets the token balance of `address`.
pub fn update_token_balance(storage: &mut GovernanceStorage, address: &Principal, balance: u32)
    requires
        old(storage).wf(),
    ensures
        final(storage).wf(),
        final(storage)@ == (GovernanceState {
            balances: old(storage)@.balances.insert(address@, balance),
            ..old(storage)@
        }),
{
    storage.balances.insert(address.clone(), balance);
}

/// The registry of token holders.
pub fn get_token_holders(storage: &GovernanceStorage) -> (holders: PrincipalList)
    ensures
        holders@ == storage@.token_holders,
{
    storage.token_holders.clone()
}

/// Replaces the registry of token holders.
pub fn store_token_holders(storage: &mut GovernanceStorage, holders: PrincipalList)
    requires
        old(storage).wf(),
    ensures
        final(storage).wf(),
        final(storage)@ == (GovernanceState { token_holders: holders@, ..old(storage)@ }),
{
    storage.token_holders = holders;
}

/// The quorum in basis points, once it has been fixed.
pub fn get_quorum(storage: &GovernanceStorage) -> (quorum: Option<u32>)
    ensures
        match quorum {
            Some(value) => storage@.config matches Some(config) && config.quorum == value,
            None => storage@.config is None,
        },
{
    match &storage.config {
        Some(config) => Some(config.quorum),
        None => None,
    }
}

/// The length of the voting window in seconds, once it has been fixed.
pub fn get_voting_period(storage: &GovernanceStorage) -> (period: Option<u64>)
    ensures
        match period {
            Some(value) => storage@.config matches Some(config) && config.voting_period == value,
            None => storage@.config is None,
        },
{
    match &storage.config {
        Some(config) => Some(config.voting_period),
        None => None,
    }
}

/// The smallest bond that a proposal may carry, once it has been fixed.
pub fn get_min_stake(storage: &GovernanceStorage) -> (min_stake: Option<u32>)
    ensures
        match min_stake {
            Some(value) => storage@.config matches Some(config) && config.min_stake == value,
            None => storage@.config is None,
        },
{
    match &storage.config {
        Some(config) => Some(config.min_stake),
        None => None,
    }
}

} // verus!
