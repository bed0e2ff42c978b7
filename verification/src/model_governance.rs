use vstd::prelude::*;
use crate::model_governance::governance::{
    amend_step, cancel_step, evaluate_step, evaluation_refunds, initialize_step, refund_has_room,
    set_token_balance_step, submit_step, tally_has_room, vote_step,
};
use crate::model_governance::storage::{GovernanceState, GovernanceStorage};
use crate::model_governance::types::{GovernanceError, Proposal};
use crate::principal::Principal;

pub mod governance;
pub mod laws;
pub mod storage;
pub mod types;

verus! {

/// One governance engine together with its durable records: the surface through which
/// proposals are submitted, voted on and resolved.
pub struct ModelUpdateGovernance {
    pub storage: GovernanceStorage,
}

impl View for ModelUpdateGovernance {
    type V = GovernanceState;

    open spec fn view(&self) -> GovernanceState {
        self.storage@
    }
}

impl ModelUpdateGovernance {
    /// The records are well formed.
    pub open spec fn wf(&self) -> bool {
        self.storage.wf()
    }

    /// An engine without records, not yet initialized.
    pub fn new() -> (engine: ModelUpdateGovernance)
        ensures
            engine.wf(),
            engine@ == GovernanceState::empty(),
    {
        ModelUpdateGovernance { storage: GovernanceStorage::new() }
    }

    /// Initializes the engine with admin, quorum, voting period and minimum bond.
    pub fn initialize(
        &mut self,
        admin: Principal,
        quorum: u32,
        voting_period: u64,
        min_stake: u32,
    ) -> (result: Result<(), GovernanceError>)
        requires
            old(self).wf(),
        ensures
            final(self).wf(),
            (final(self)@, result) == initialize_step(
                old(self)@,
                admin@,
                quorum,
                voting_period,
                min_stake,
            ),
    {
        governance::initialize(&mut self.storage, admin, quorum, voting_period, min_stake)
    }

    /// Submits a new proposal and returns its identifier.
    pub fn submit_proposal(
        &mut self,
        now: u64,
        proposer: &Principal,
        metadata: String,
        stake: u32,
    ) -> (result: Result<u32, GovernanceError>)
        requires
            old(self).wf(),
            submit_step(old(self)@, now, proposer@, metadata@, stake).1 is Ok ==> old(
                self,
            )@.next_proposal_id < u32::MAX,
        ensures
            final(self).wf(),
            (final(self)@, result) == submit_step(old(self)@, now, proposer@, metadata@, stake),
    {
        governance::submit_proposal(&mut self.storage, now, proposer, metadata, stake)
    }

    /// Lets a token holder vote on a proposal.
    pub fn vote(&mut self, now: u64, voter: &Principal, proposal_id: u32, in_favor: bool) -> (result:
        Result<(), GovernanceError>)
        requires
            old(self).wf(),
            vote_step(old(self)@, now, voter@, proposal_id, in_favor).1 is Ok ==> tally_has_room(
                old(self)@,
                proposal_id,
                voter@,
                in_favor,
            ),
        ensures
            final(self).wf(),
            (final(self)@, result) == vote_step(old(self)@, now, voter@, proposal_id, in_favor),
    {
        governance::vote(&mut self.storage, now, voter, proposal_id, in_favor)
    }

    /// Evaluates a proposal and approves or rejects it.
    pub fn evaluate_proposal(&mut self, now: u64, proposal_id: u32) -> (result: Result<
        (),
        GovernanceError,
    >)
        requires
            old(self).wf(),
            evaluation_refunds(old(self)@, now, proposal_id) ==> refund_has_room(
                old(self)@,
                proposal_id,
            ),
        ensures
            final(self).wf(),
            (final(self)@, result) == evaluate_step(old(self)@, now, proposal_id),
    {
        governance::evaluate_proposal(&mut self.storage, now, proposal_id)
    }

    /// Cancels an active proposal.
    pub fn cancel_proposal(&mut self, caller: &Principal, proposal_id: u32) -> (result: Result<
        (),
        GovernanceError,
    >)
        requires
            old(self).wf(),
            cancel_step(old(self)@, caller@, proposal_id).1 is Ok ==> refund_has_room(
                old(self)@,
                proposal_id,
            ),
        ensures
            final(self).wf(),
            (final(self)@, result) == cancel_step(old(self)@, caller@, proposal_id),
    {
        governance::cancel_proposal(&mut self.storage, caller, proposal_id)
    }

    /// Amends the description of an active proposal.
    pub fn amend_proposal(&mut self, proposer: &Principal, proposal_id: u32, new_metadata: String) -> (result:
        Result<(), GovernanceError>)
        requires
            old(self).wf(),
        ensures
            final(self).wf(),
            (final(self)@, result) == amend_step(
                old(self)@,
                proposer@,
                proposal_id,
                new_metadata@,
            ),
    {
        governance::amend_proposal(&mut self.storage, proposer, proposal_id, new_metadata)
    }

    /// Retrieves a proposal.
    pub fn get_proposal_info(&self, proposal_id: u32) -> (result: Result<Proposal, GovernanceError>)
        requires
            self.wf(),
        ensures
            match result {
                Ok(proposal) => self@.proposals.contains_key(proposal_id) && proposal@
                    == self@.proposals[proposal_id],
                Err(error) => !self@.proposals.contains_key(proposal_id) && error
                    == GovernanceError::NotFound,
            },
    {
        governance::get_proposal_info(&self.storage, proposal_id)
    }

    /// Sets a token balance on behalf of the administrator.
    pub fn set_token_balance(&mut self, admin: &Principal, address: &Principal, balance: u32) -> (result:
        Result<(), GovernanceError>)
        requires
            old(self).wf(),
        ensures
            final(self).wf(),
            (final(self)@, result) == set_token_balance_step(
                old(self)@,
                admin@,
                address@,
                balance,
            ),
    {
        governance::set_token_balance(&mut self.storage, admin, address, balance)
    }
}

} // verus!
