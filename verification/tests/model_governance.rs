use token_governance::model_governance::governance::{
    evaluation_verdict, has_proposal_ids_left, has_refund_room, has_tally_room,
    total_registered_weight, Verdict,
};
use token_governance::model_governance::storage::{
    get_min_stake, get_proposal, get_quorum, get_token_balance, get_token_holders, get_vote,
    get_voters, get_voting_period, is_admin, is_initialized, next_proposal_id,
    peek_next_proposal_id, store_proposal, store_vote, store_voters, update_token_balance,
    GovernanceStorage,
};
use token_governance::model_governance::types::{
    GovernanceError, Proposal, ProposalStatus, Vote, WindowViolation,
};
use token_governance::model_governance::ModelUpdateGovernance;
use token_governance::principal::{Principal, PrincipalList};

const DAY: u64 = 86400;

fn text(s: &str) -> String {
    String::from(s)
}

/// An engine with 50% quorum, one day of voting and a minimum bond of 100.
fn engine(quorum: u32) -> (ModelUpdateGovernance, Principal) {
    let admin = Principal::new("admin");
    let mut contract = ModelUpdateGovernance::new();
    assert_eq!(contract.initialize(admin.clone(), quorum, DAY, 100), Ok(()));
    (contract, admin)
}

fn balance(contract: &ModelUpdateGovernance, who: &Principal) -> u32 {
    get_token_balance(&contract.storage, who)
}

#[test]
fn test_initialize_contract() {
    let admin = Principal::new("admin");
    let mut contract = ModelUpdateGovernance::new();
    let result = contract.initialize(admin.clone(), 5000, 86400, 100);
    assert!(result.is_ok(), "Initialize function completed without errors");
    assert!(is_initialized(&contract.storage));
    assert!(is_admin(&contract.storage, &admin));
    assert_eq!(get_quorum(&contract.storage), Some(5000));
    assert_eq!(get_voting_period(&contract.storage), Some(86400));
    assert_eq!(get_min_stake(&contract.storage), Some(100));
    assert_eq!(peek_next_proposal_id(&contract.storage), 1);
}

#[test]
fn test_submit_proposal() {
    let (mut contract, admin) = engine(5000);
    let proposer = Principal::new("proposer");
    assert_eq!(contract.set_token_balance(&admin, &proposer, 200), Ok(()));

    let proposal_id = contract
        .submit_proposal(0, &proposer, text("Update AI model v2"), 150)
        .unwrap();
    let proposal = contract.get_proposal_info(proposal_id).unwrap();
    assert_eq!(proposal.stake, 150);
    assert_eq!(proposal.status, ProposalStatus::Active);
    assert_eq!(proposal.metadata, text("Update AI model v2"));
}

#[test]
fn test_submit_proposal_insufficient_stake() {
    let (mut contract, admin) = engine(5000);
    let proposer = Principal::new("proposer");
    assert_eq!(contract.set_token_balance(&admin, &proposer, 50), Ok(()));
    let result = contract.submit_proposal(0, &proposer, text("Update AI model v2"), 100);
    assert_eq!(result, Err(GovernanceError::InsufficientStake));
}

#[test]
fn test_vote() {
    let (mut contract, admin) = engine(5000);
    let proposer = Principal::new("proposer");
    let voter = Principal::new("voter");
    assert_eq!(contract.set_token_balance(&admin, &proposer, 200), Ok(()));
    assert_eq!(contract.set_token_balance(&admin, &voter, 300), Ok(()));

    let proposal_id = contract
        .submit_proposal(0, &proposer, text("Update AI model v2"), 150)
        .unwrap();
    assert_eq!(contract.vote(0, &voter, proposal_id, true), Ok(()));

    let proposal = contract.get_proposal_info(proposal_id).unwrap();
    assert_eq!(proposal.yes_votes, 300);
    assert_eq!(proposal.no_votes, 0);
}

#[test]
fn test_double_voting() {
    let (mut contract, admin) = engine(5000);
    let proposer = Principal::new("proposer");
    let voter = Principal::new("voter");
    assert_eq!(contract.set_token_balance(&admin, &proposer, 200), Ok(()));
    assert_eq!(contract.set_token_balance(&admin, &voter, 300), Ok(()));

    let proposal_id = contract
        .submit_proposal(0, &proposer, text("Update AI model v2"), 150)
        .unwrap();
    assert_eq!(contract.vote(0, &voter, proposal_id, true), Ok(()));
    assert_eq!(
        contract.vote(0, &voter, proposal_id, false),
        Err(GovernanceError::DoubleVote)
    );
}

#[test]
fn test_evaluate_proposal_approved() {
    let (mut contract, admin) = engine(5000);
    let proposer = Principal::new("proposer");
    let voter = Principal::new("voter");
    assert_eq!(contract.set_token_balance(&admin, &proposer, 200), Ok(()));
    assert_eq!(contract.set_token_balance(&admin, &voter, 300), Ok(()));

    let proposal_id = contract
        .submit_proposal(0, &proposer, text("Update AI model v2"), 150)
        .unwrap();
    assert_eq!(contract.vote(0, &voter, proposal_id, true), Ok(()));

    assert_eq!(contract.evaluate_proposal(86401, proposal_id), Ok(()));

    let proposal = contract.get_proposal_info(proposal_id).unwrap();
    assert_eq!(proposal.status, ProposalStatus::Approved);
    assert!(proposal.executed);
}

#[test]
fn test_evaluate_proposal_quorum_failure() {
    let (mut contract, admin) = engine(9000);
    let proposer = Principal::new("proposer");
    let voter = Principal::new("voter");
    assert_eq!(contract.set_token_balance(&admin, &proposer, 200), Ok(()));
    assert_eq!(contract.set_token_balance(&admin, &voter, 300), Ok(()));
    assert_eq!(
        contract.set_token_balance(&admin, &Principal::new("third holder"), 700),
        Ok(())
    );

    let proposal_id = contract
        .submit_proposal(0, &proposer, text("Update AI model v2"), 150)
        .unwrap();
    assert_eq!(contract.vote(0, &voter, proposal_id, true), Ok(()));

    assert_eq!(
        contract.evaluate_proposal(86401, proposal_id),
        Err(GovernanceError::QuorumNotMet)
    );
}

#[test]
fn test_evaluate_proposal_tie() {
    let (mut contract, admin) = engine(5000);
    let proposer = Principal::new("proposer");
    let voter1 = Principal::new("voter1");
    let voter2 = Principal::new("voter2");
    assert_eq!(contract.set_token_balance(&admin, &proposer, 200), Ok(()));
    assert_eq!(contract.set_token_balance(&admin, &voter1, 300), Ok(()));
    assert_eq!(contract.set_token_balance(&admin, &voter2, 300), Ok(()));

    let proposal_id = contract
        .submit_proposal(0, &proposer, text("Update AI model v2"), 150)
        .unwrap();
    assert_eq!(contract.vote(0, &voter1, proposal_id, true), Ok(()));
    assert_eq!(contract.vote(0, &voter2, proposal_id, false), Ok(()));

    assert_eq!(contract.evaluate_proposal(86401, proposal_id), Ok(()));

    let proposal = contract.get_proposal_info(proposal_id).unwrap();
    assert_eq!(proposal.status, ProposalStatus::Rejected);
    assert_eq!(proposal.yes_votes, 300);
    assert_eq!(proposal.no_votes, 300);
}

#[test]
fn test_cancel_proposal() {
    let (mut contract, admin) = engine(5000);
    let proposer = Principal::new("proposer");
    assert_eq!(contract.set_token_balance(&admin, &proposer, 200), Ok(()));

    let proposal_id = contract
        .submit_proposal(0, &proposer, text("Update AI model v2"), 150)
        .unwrap();
    assert_eq!(contract.cancel_proposal(&proposer, proposal_id), Ok(()));

    let proposal = contract.get_proposal_info(proposal_id).unwrap();
    assert_eq!(proposal.status, ProposalStatus::Cancelled);
}

#[test]
fn test_unauthorized_cancellation() {
    let (mut contract, admin) = engine(5000);
    let proposer = Principal::new("proposer");
    let unauthorized = Principal::new("unauthorized");
    assert_eq!(contract.set_token_balance(&admin, &proposer, 200), Ok(()));

    let proposal_id = contract
        .submit_proposal(0, &proposer, text("Update AI model v2"), 150)
        .unwrap();
    assert_eq!(
        contract.cancel_proposal(&unauthorized, proposal_id),
        Err(GovernanceError::Unauthorized)
    );
    let proposal = contract.get_proposal_info(proposal_id).unwrap();
    assert_eq!(proposal.status, ProposalStatus::Active);
    assert_eq!(balance(&contract, &proposer), 50);
}

#[test]
fn test_amend_proposal() {
    let (mut contract, admin) = engine(5000);
    let proposer = Principal::new("proposer");
    assert_eq!(contract.set_token_balance(&admin, &proposer, 200), Ok(()));

    let proposal_id = contract
        .submit_proposal(0, &proposer, text("Update AI model v2"), 150)
        .unwrap();
    assert_eq!(
        contract.amend_proposal(&proposer, proposal_id, text("Revised AI model update v3")),
        Ok(())
    );

    let proposal = contract.get_proposal_info(proposal_id).unwrap();
    assert_eq!(proposal.metadata, text("Revised AI model update v3"));
}

#[test]
fn second_initialization_is_rejected_and_changes_nothing() {
    let (mut contract, admin) = engine(5000);
    let intruder = Principal::new("intruder");
    assert_eq!(
        contract.initialize(intruder.clone(), 1, 2, 3),
        Err(GovernanceError::InvalidState)
    );
    assert!(is_admin(&contract.storage, &admin));
    assert!(!is_admin(&contract.storage, &intruder));
    assert_eq!(get_quorum(&contract.storage), Some(5000));
    assert_eq!(get_voting_period(&contract.storage), Some(DAY));
    assert_eq!(get_min_stake(&contract.storage), Some(100));
}

#[test]
fn calls_before_initialization_fail() {
    let mut contract = ModelUpdateGovernance::new();
    let someone = Principal::new("someone");
    assert!(!is_initialized(&contract.storage));
    assert_eq!(get_quorum(&contract.storage), None);
    assert_eq!(get_voting_period(&contract.storage), None);
    assert_eq!(get_min_stake(&contract.storage), None);
    assert_eq!(
        contract.submit_proposal(0, &someone, text("early"), 0),
        Err(GovernanceError::InvalidState)
    );
    assert_eq!(
        contract.set_token_balance(&someone, &someone, 5),
        Err(GovernanceError::Unauthorized)
    );
    assert_eq!(contract.vote(0, &someone, 1, true), Err(GovernanceError::NotFound));
}

#[test]
fn identifiers_start_at_one_and_are_never_reused() {
    let (mut contract, admin) = engine(5000);
    let proposer = Principal::new("proposer");
    assert_eq!(contract.set_token_balance(&admin, &proposer, 1000), Ok(()));
    let first = contract.submit_proposal(0, &proposer, text("a"), 100).unwrap();
    assert_eq!(first, 1);
    assert_eq!(contract.cancel_proposal(&proposer, first), Ok(()));
    let second = contract.submit_proposal(1, &proposer, text("b"), 100).unwrap();
    assert_eq!(second, 2);
    assert_eq!(contract.evaluate_proposal(DAY + 2, second), Err(GovernanceError::QuorumNotMet));
    let third = contract.submit_proposal(DAY + 3, &proposer, text("c"), 100).unwrap();
    assert_eq!(third, 3);
    assert_eq!(contract.get_proposal_info(first).unwrap().id, 1);
    assert_eq!(contract.get_proposal_info(third).unwrap().timestamp, DAY + 3);
}

#[test]
fn submission_takes_the_bond_at_once() {
    let (mut contract, admin) = engine(5000);
    let proposer = Principal::new("proposer");
    assert_eq!(contract.set_token_balance(&admin, &proposer, 200), Ok(()));
    let id = contract.submit_proposal(7, &proposer, text("m"), 150).unwrap();
    assert_eq!(balance(&contract, &proposer), 50);
    let proposal = contract.get_proposal_info(id).unwrap();
    assert_eq!(proposal.proposer, proposer);
    assert_eq!(proposal.yes_votes, 0);
    assert_eq!(proposal.no_votes, 0);
    assert_eq!(proposal.timestamp, 7);
    assert!(!proposal.executed);
}

#[test]
fn underfunded_submission_leaves_no_trace() {
    let (mut contract, admin) = engine(5000);
    let proposer = Principal::new("proposer");
    assert_eq!(contract.set_token_balance(&admin, &proposer, 200), Ok(()));
    // Below the minimum bond.
    assert_eq!(
        contract.submit_proposal(0, &proposer, text("m"), 99),
        Err(GovernanceError::InsufficientStake)
    );
    // Above the balance.
    assert_eq!(
        contract.submit_proposal(0, &proposer, text("m"), 201),
        Err(GovernanceError::InsufficientStake)
    );
    assert_eq!(peek_next_proposal_id(&contract.storage), 1);
    assert_eq!(contract.get_proposal_info(1).err(), Some(GovernanceError::NotFound));
    assert_eq!(balance(&contract, &proposer), 200);
    // The bounds themselves are accepted.
    assert_eq!(contract.submit_proposal(0, &proposer, text("m"), 100), Ok(1));
    assert_eq!(contract.submit_proposal(0, &proposer, text("m"), 100), Ok(2));
    assert_eq!(balance(&contract, &proposer), 0);
}

#[test]
fn one_vote_per_principal_and_tallies_stay() {
    let (mut contract, admin) = engine(5000);
    let proposer = Principal::new("proposer");
    let voter = Principal::new("voter");
    assert_eq!(contract.set_token_balance(&admin, &proposer, 200), Ok(()));
    assert_eq!(contract.set_token_balance(&admin, &voter, 300), Ok(()));
    let id = contract.submit_proposal(0, &proposer, text("m"), 150).unwrap();
    assert_eq!(contract.vote(10, &voter, id, false), Ok(()));
    for again in [true, false] {
        assert_eq!(contract.vote(20, &voter, id, again), Err(GovernanceError::DoubleVote));
    }
    let proposal = contract.get_proposal_info(id).unwrap();
    assert_eq!((proposal.yes_votes, proposal.no_votes), (0, 300));
    let voters = get_voters(&contract.storage, id);
    assert_eq!(voters.len(), 1);
    assert_eq!(*voters.get(0), voter);
    let record = get_vote(&contract.storage, id, &voter).unwrap();
    assert_eq!(record.voter, voter);
    assert!(!record.in_favor);
    assert_eq!(record.weight, 300);
    // After the window the same attempt fails for the window's sake.
    assert_eq!(
        contract.vote(DAY + 1, &voter, id, true),
        Err(GovernanceError::VotingWindowViolation(WindowViolation::VotingClosed))
    );
}

#[test]
fn vote_weight_is_the_balance_at_voting_time() {
    let (mut contract, admin) = engine(5000);
    let proposer = Principal::new("proposer");
    let voter = Principal::new("voter");
    assert_eq!(contract.set_token_balance(&admin, &proposer, 200), Ok(()));
    assert_eq!(contract.set_token_balance(&admin, &voter, 300), Ok(()));
    let id = contract.submit_proposal(0, &proposer, text("m"), 150).unwrap();
    assert_eq!(contract.vote(0, &voter, id, true), Ok(()));
    assert_eq!(contract.set_token_balance(&admin, &voter, 1), Ok(()));
    let proposal = contract.get_proposal_info(id).unwrap();
    assert_eq!(proposal.yes_votes, 300);
    assert_eq!(get_vote(&contract.storage, id, &voter).unwrap().weight, 300);
}

#[test]
fn proposer_votes_with_what_the_bond_left() {
    let (mut contract, admin) = engine(5000);
    let proposer = Principal::new("proposer");
    assert_eq!(contract.set_token_balance(&admin, &proposer, 200), Ok(()));
    let id = contract.submit_proposal(0, &proposer, text("m"), 150).unwrap();
    assert_eq!(contract.vote(0, &proposer, id, true), Ok(()));
    assert_eq!(contract.get_proposal_info(id).unwrap().yes_votes, 50);
    let all_in = Principal::new("all in");
    assert_eq!(contract.set_token_balance(&admin, &all_in, 100), Ok(()));
    let other = contract.submit_proposal(0, &all_in, text("n"), 100).unwrap();
    assert_eq!(contract.vote(0, &all_in, other, true), Err(GovernanceError::NoVotingPower));
}

#[test]
fn vote_errors_come_in_order() {
    let (mut contract, admin) = engine(5000);
    let proposer = Principal::new("proposer");
    let voter = Principal::new("voter");
    let pauper = Principal::new("pauper");
    assert_eq!(contract.set_token_balance(&admin, &proposer, 200), Ok(()));
    assert_eq!(contract.set_token_balance(&admin, &voter, 300), Ok(()));
    assert_eq!(contract.vote(0, &voter, 1, true), Err(GovernanceError::NotFound));
    let id = contract.submit_proposal(100, &proposer, text("m"), 150).unwrap();
    assert_eq!(contract.vote(100, &pauper, id, true), Err(GovernanceError::NoVotingPower));
    // The deadline itself is still inside the window.
    assert_eq!(
        contract.vote(100 + DAY + 1, &voter, id, true),
        Err(GovernanceError::VotingWindowViolation(WindowViolation::VotingClosed))
    );
    assert_eq!(contract.vote(100 + DAY, &voter, id, true), Ok(()));
    assert_eq!(contract.cancel_proposal(&admin, id), Ok(()));
    assert_eq!(contract.vote(100, &pauper, id, true), Err(GovernanceError::InvalidState));
    assert_eq!(contract.vote(100, &voter, id, true), Err(GovernanceError::InvalidState));
}

#[test]
fn evaluation_waits_for_the_window_to_close() {
    let (mut contract, admin) = engine(5000);
    let proposer = Principal::new("proposer");
    let voter = Principal::new("voter");
    assert_eq!(contract.set_token_balance(&admin, &proposer, 200), Ok(()));
    assert_eq!(contract.set_token_balance(&admin, &voter, 300), Ok(()));
    assert_eq!(contract.evaluate_proposal(0, 1), Err(GovernanceError::NotFound));
    let id = contract.submit_proposal(5, &proposer, text("m"), 150).unwrap();
    assert_eq!(contract.vote(5, &voter, id, true), Ok(()));
    for now in [0, 5, DAY, DAY + 5] {
        assert_eq!(
            contract.evaluate_proposal(now, id),
            Err(GovernanceError::VotingWindowViolation(WindowViolation::VotingNotEnded))
        );
        assert_eq!(contract.get_proposal_info(id).unwrap().status, ProposalStatus::Active);
    }
    assert_eq!(contract.evaluate_proposal(DAY + 6, id), Ok(()));
    assert_eq!(
        contract.evaluate_proposal(DAY + 7, id),
        Err(GovernanceError::InvalidState)
    );
}

#[test]
fn window_arithmetic_does_not_wrap() {
    let admin = Principal::new("admin");
    let proposer = Principal::new("proposer");
    let mut contract = ModelUpdateGovernance::new();
    assert_eq!(contract.initialize(admin.clone(), 5000, u64::MAX, 0), Ok(()));
    assert_eq!(contract.set_token_balance(&admin, &proposer, 10), Ok(()));
    let id = contract.submit_proposal(1000, &proposer, text("m"), 0).unwrap();
    assert_eq!(contract.vote(u64::MAX, &proposer, id, true), Ok(()));
    assert_eq!(
        contract.evaluate_proposal(u64::MAX, id),
        Err(GovernanceError::VotingWindowViolation(WindowViolation::VotingNotEnded))
    );
}

#[test]
fn approved_example_keeps_the_bond() {
    // Quorum 50%; the proposer stakes 150 of 200; one voter of weight 300 votes yes.
    let (mut contract, admin) = engine(5000);
    let proposer = Principal::new("proposer");
    let voter = Principal::new("voter");
    assert_eq!(contract.set_token_balance(&admin, &proposer, 200), Ok(()));
    assert_eq!(contract.set_token_balance(&admin, &voter, 300), Ok(()));
    let id = contract.submit_proposal(0, &proposer, text("m"), 150).unwrap();
    assert_eq!(contract.vote(0, &voter, id, true), Ok(()));
    // The proposer still counts as a holder with the 50 that are left.
    assert_eq!(total_registered_weight(&contract.storage), 350);
    assert_eq!(contract.evaluate_proposal(DAY + 1, id), Ok(()));
    let proposal = contract.get_proposal_info(id).unwrap();
    assert_eq!(proposal.status, ProposalStatus::Approved);
    assert!(proposal.executed);
    assert_eq!(balance(&contract, &proposer), 50);
}

#[test]
fn quorum_failure_is_committed_and_refunds() {
    let (mut contract, admin) = engine(9000);
    let proposer = Principal::new("proposer");
    let voter = Principal::new("voter");
    let third = Principal::new("third");
    assert_eq!(contract.set_token_balance(&admin, &proposer, 200), Ok(()));
    assert_eq!(contract.set_token_balance(&admin, &voter, 300), Ok(()));
    assert_eq!(contract.set_token_balance(&admin, &third, 700), Ok(()));
    let id = contract.submit_proposal(0, &proposer, text("m"), 150).unwrap();
    assert_eq!(contract.vote(0, &voter, id, true), Ok(()));
    // The proposer counts with what the bond left: 50 + 300 + 700.
    assert_eq!(total_registered_weight(&contract.storage), 1050);
    assert_eq!(
        contract.evaluate_proposal(DAY + 1, id),
        Err(GovernanceError::QuorumNotMet)
    );
    let proposal = contract.get_proposal_info(id).unwrap();
    assert_eq!(proposal.status, ProposalStatus::Rejected);
    assert!(!proposal.executed);
    assert_eq!(balance(&contract, &proposer), 200);
    // The rejection stands: nothing more can be done with the proposal.
    assert_eq!(
        contract.evaluate_proposal(DAY + 2, id),
        Err(GovernanceError::InvalidState)
    );
    assert_eq!(contract.cancel_proposal(&proposer, id), Err(GovernanceError::InvalidState));
    assert_eq!(balance(&contract, &proposer), 200);
}

#[test]
fn quorum_ratio_is_rounded_down() {
    // 1 of 3 is 3333 basis points: it meets 3333 and misses 3334.
    for (quorum, expected) in [(3333, Ok(())), (3334, Err(GovernanceError::QuorumNotMet))] {
        let (mut contract, admin) = engine(quorum);
        let proposer = Principal::new("proposer");
        let voter = Principal::new("voter");
        assert_eq!(contract.set_token_balance(&admin, &proposer, 102), Ok(()));
        assert_eq!(contract.set_token_balance(&admin, &voter, 1), Ok(()));
        let id = contract.submit_proposal(0, &proposer, text("m"), 100).unwrap();
        assert_eq!(total_registered_weight(&contract.storage), 3);
        assert_eq!(contract.vote(0, &voter, id, true), Ok(()));
        assert_eq!(contract.evaluate_proposal(DAY + 1, id), expected);
    }
}

#[test]
fn large_weights_do_not_overflow_the_quorum_ratio() {
    let (mut contract, admin) = engine(10000);
    let proposer = Principal::new("proposer");
    let whale = Principal::new("whale");
    assert_eq!(contract.set_token_balance(&admin, &proposer, 100), Ok(()));
    assert_eq!(contract.set_token_balance(&admin, &whale, u32::MAX), Ok(()));
    let id = contract.submit_proposal(0, &proposer, text("m"), 100).unwrap();
    assert_eq!(contract.vote(0, &whale, id, true), Ok(()));
    assert_eq!(total_registered_weight(&contract.storage), u32::MAX as u128);
    assert_eq!(contract.evaluate_proposal(DAY + 1, id), Ok(()));
    assert_eq!(contract.get_proposal_info(id).unwrap().status, ProposalStatus::Approved);
}

#[test]
fn no_votes_means_no_quorum_even_at_quorum_zero() {
    let (mut contract, admin) = engine(0);
    let proposer = Principal::new("proposer");
    assert_eq!(contract.set_token_balance(&admin, &proposer, 200), Ok(()));
    let id = contract.submit_proposal(0, &proposer, text("m"), 150).unwrap();
    assert_eq!(
        contract.evaluate_proposal(DAY + 1, id),
        Err(GovernanceError::QuorumNotMet)
    );
    assert_eq!(contract.get_proposal_info(id).unwrap().status, ProposalStatus::Rejected);
    assert_eq!(balance(&contract, &proposer), 200);
}

#[test]
fn empty_registry_is_quorum_failure_not_a_crash() {
    let (mut contract, admin) = engine(5000);
    let proposer = Principal::new("proposer");
    let voter = Principal::new("voter");
    assert_eq!(contract.set_token_balance(&admin, &proposer, 200), Ok(()));
    assert_eq!(contract.set_token_balance(&admin, &voter, 300), Ok(()));
    let id = contract.submit_proposal(0, &proposer, text("m"), 150).unwrap();
    assert_eq!(contract.vote(0, &voter, id, true), Ok(()));
    assert_eq!(contract.set_token_balance(&admin, &proposer, 0), Ok(()));
    assert_eq!(contract.set_token_balance(&admin, &voter, 0), Ok(()));
    assert_eq!(get_token_holders(&contract.storage).len(), 0);
    assert_eq!(total_registered_weight(&contract.storage), 0);
    assert_eq!(
        contract.evaluate_proposal(DAY + 1, id),
        Err(GovernanceError::QuorumNotMet)
    );
    assert_eq!(contract.get_proposal_info(id).unwrap().status, ProposalStatus::Rejected);
    assert_eq!(balance(&contract, &proposer), 150);
}

#[test]
fn tally_can_exceed_registered_weight_after_a_balance_change() {
    let (mut contract, admin) = engine(5000);
    let proposer = Principal::new("proposer");
    let voter = Principal::new("voter");
    assert_eq!(contract.set_token_balance(&admin, &proposer, 200), Ok(()));
    assert_eq!(contract.set_token_balance(&admin, &voter, 300), Ok(()));
    let id = contract.submit_proposal(0, &proposer, text("m"), 150).unwrap();
    assert_eq!(contract.vote(0, &voter, id, true), Ok(()));
    assert_eq!(contract.set_token_balance(&admin, &voter, 0), Ok(()));
    assert_eq!(total_registered_weight(&contract.storage), 50);
    assert_eq!(contract.evaluate_proposal(DAY + 1, id), Ok(()));
    let proposal = contract.get_proposal_info(id).unwrap();
    assert_eq!(proposal.yes_votes + proposal.no_votes, 300);
    assert_eq!(proposal.status, ProposalStatus::Approved);
}

#[test]
fn tally_stays_within_registered_weight_without_balance_changes() {
    let (mut contract, admin) = engine(5000);
    let proposer = Principal::new("proposer");
    assert_eq!(contract.set_token_balance(&admin, &proposer, 200), Ok(()));
    let names = ["a", "b", "c", "d"];
    for (i, name) in names.iter().enumerate() {
        assert_eq!(
            contract.set_token_balance(&admin, &Principal::new(name), 10 * (i as u32 + 1)),
            Ok(())
        );
    }
    let id = contract.submit_proposal(0, &proposer, text("m"), 150).unwrap();
    for (i, name) in names.iter().enumerate().take(3) {
        assert_eq!(contract.vote(0, &Principal::new(name), id, i % 2 == 0), Ok(()));
    }
    let proposal = contract.get_proposal_info(id).unwrap();
    assert_eq!((proposal.yes_votes, proposal.no_votes), (40, 20));
    assert_eq!(total_registered_weight(&contract.storage), 150);
    assert!((proposal.yes_votes + proposal.no_votes) as u128 <= 150);
}

#[test]
fn verdict_is_given_without_changing_anything() {
    let (mut contract, admin) = engine(5000);
    let proposer = Principal::new("proposer");
    let yes = Principal::new("yes");
    let no = Principal::new("no");
    assert_eq!(contract.set_token_balance(&admin, &proposer, 1000), Ok(()));
    assert_eq!(contract.set_token_balance(&admin, &yes, 300), Ok(()));
    assert_eq!(contract.set_token_balance(&admin, &no, 200), Ok(()));
    assert_eq!(
        evaluation_verdict(&contract.storage, DAY + 1, 1),
        Err(GovernanceError::NotFound)
    );
    let id = contract.submit_proposal(0, &proposer, text("m"), 100).unwrap();
    assert_eq!(
        evaluation_verdict(&contract.storage, DAY, id),
        Err(GovernanceError::VotingWindowViolation(WindowViolation::VotingNotEnded))
    );
    assert_eq!(evaluation_verdict(&contract.storage, DAY + 1, id), Ok(Verdict::BelowQuorum));
    assert_eq!(contract.vote(0, &no, id, false), Ok(()));
    // 200 of 1400 is below half.
    assert_eq!(evaluation_verdict(&contract.storage, DAY + 1, id), Ok(Verdict::BelowQuorum));
    assert_eq!(contract.set_token_balance(&admin, &proposer, 0), Ok(()));
    // 200 of 500 is still below half; 200 of 400 is not.
    assert_eq!(evaluation_verdict(&contract.storage, DAY + 1, id), Ok(Verdict::BelowQuorum));
    assert_eq!(contract.set_token_balance(&admin, &yes, 200), Ok(()));
    assert_eq!(evaluation_verdict(&contract.storage, DAY + 1, id), Ok(Verdict::Rejected));
    assert_eq!(contract.vote(0, &yes, id, true), Ok(()));
    assert_eq!(evaluation_verdict(&contract.storage, DAY + 1, id), Ok(Verdict::Rejected));
    assert_eq!(contract.get_proposal_info(id).unwrap().status, ProposalStatus::Active);
    let other = contract.submit_proposal(0, &no, text("n"), 100).unwrap();
    assert_eq!(contract.vote(0, &yes, other, true), Ok(()));
    assert_eq!(contract.vote(0, &no, other, false), Ok(()));
    // 200 in favor against the 100 that the bond left.
    assert_eq!(evaluation_verdict(&contract.storage, DAY + 1, other), Ok(Verdict::Approved));
    assert_eq!(contract.evaluate_proposal(DAY + 1, other), Ok(()));
    assert_eq!(
        evaluation_verdict(&contract.storage, DAY + 1, other),
        Err(GovernanceError::InvalidState)
    );
}

#[test]
fn tie_is_rejected_and_refunded() {
    let (mut contract, admin) = engine(5000);
    let proposer = Principal::new("proposer");
    let voter1 = Principal::new("voter1");
    let voter2 = Principal::new("voter2");
    assert_eq!(contract.set_token_balance(&admin, &proposer, 200), Ok(()));
    assert_eq!(contract.set_token_balance(&admin, &voter1, 300), Ok(()));
    assert_eq!(contract.set_token_balance(&admin, &voter2, 300), Ok(()));
    let id = contract.submit_proposal(0, &proposer, text("m"), 150).unwrap();
    assert_eq!(contract.vote(0, &voter1, id, true), Ok(()));
    assert_eq!(contract.vote(0, &voter2, id, false), Ok(()));
    assert_eq!(balance(&contract, &proposer), 50);
    assert_eq!(contract.evaluate_proposal(DAY + 1, id), Ok(()));
    let proposal = contract.get_proposal_info(id).unwrap();
    assert_eq!(proposal.status, ProposalStatus::Rejected);
    assert!(!proposal.executed);
    assert_eq!(balance(&contract, &proposer), 200);
}

#[test]
fn cancel_right_after_submit_restores_the_weight() {
    let (mut contract, admin) = engine(5000);
    let proposer = Principal::new("proposer");
    assert_eq!(contract.set_token_balance(&admin, &proposer, 200), Ok(()));
    let id = contract.submit_proposal(0, &proposer, text("m"), 150).unwrap();
    assert!(has_refund_room(&contract.storage, id));
    assert_eq!(contract.cancel_proposal(&proposer, id), Ok(()));
    assert_eq!(balance(&contract, &proposer), 200);
    assert_eq!(contract.cancel_proposal(&proposer, id), Err(GovernanceError::InvalidState));
    assert_eq!(balance(&contract, &proposer), 200);
}

#[test]
fn admin_may_cancel_and_the_proposer_is_refunded() {
    let (mut contract, admin) = engine(5000);
    let proposer = Principal::new("proposer");
    assert_eq!(contract.set_token_balance(&admin, &proposer, 200), Ok(()));
    assert_eq!(contract.cancel_proposal(&admin, 1), Err(GovernanceError::NotFound));
    let id = contract.submit_proposal(0, &proposer, text("m"), 150).unwrap();
    assert_eq!(contract.cancel_proposal(&admin, id), Ok(()));
    assert_eq!(contract.get_proposal_info(id).unwrap().status, ProposalStatus::Cancelled);
    assert_eq!(balance(&contract, &proposer), 200);
    assert_eq!(balance(&contract, &admin), 0);
}

#[test]
fn amendment_is_for_the_proposer_of_an_active_proposal() {
    let (mut contract, admin) = engine(5000);
    let proposer = Principal::new("proposer");
    assert_eq!(contract.set_token_balance(&admin, &proposer, 200), Ok(()));
    assert_eq!(
        contract.amend_proposal(&proposer, 1, text("x")),
        Err(GovernanceError::NotFound)
    );
    let id = contract.submit_proposal(3, &proposer, text("first"), 150).unwrap();
    assert_eq!(
        contract.amend_proposal(&admin, id, text("x")),
        Err(GovernanceError::Unauthorized)
    );
    assert_eq!(contract.amend_proposal(&proposer, id, text("second")), Ok(()));
    let proposal = contract.get_proposal_info(id).unwrap();
    assert_eq!(proposal.metadata, text("second"));
    assert_eq!(proposal.timestamp, 3);
    assert_eq!(proposal.stake, 150);
    assert_eq!(proposal.status, ProposalStatus::Active);
    assert_eq!(contract.cancel_proposal(&proposer, id), Ok(()));
    assert_eq!(
        contract.amend_proposal(&proposer, id, text("third")),
        Err(GovernanceError::InvalidState)
    );
    assert_eq!(contract.get_proposal_info(id).unwrap().metadata, text("second"));
}

#[test]
fn only_the_admin_sets_balances_and_the_registry_follows() {
    let (mut contract, admin) = engine(5000);
    let a = Principal::new("a");
    let b = Principal::new("b");
    assert_eq!(
        contract.set_token_balance(&a, &a, 5),
        Err(GovernanceError::Unauthorized)
    );
    assert_eq!(balance(&contract, &a), 0);
    assert_eq!(contract.set_token_balance(&admin, &a, 5), Ok(()));
    assert_eq!(contract.set_token_balance(&admin, &b, 6), Ok(()));
    assert_eq!(contract.set_token_balance(&admin, &a, 7), Ok(()));
    let holders = get_token_holders(&contract.storage);
    assert_eq!(holders.len(), 2);
    assert_eq!(*holders.get(0), a);
    assert_eq!(*holders.get(1), b);
    assert_eq!(total_registered_weight(&contract.storage), 13);
    assert_eq!(contract.set_token_balance(&admin, &a, 0), Ok(()));
    let holders = get_token_holders(&contract.storage);
    assert_eq!(holders.len(), 1);
    assert_eq!(*holders.get(0), b);
    assert_eq!(total_registered_weight(&contract.storage), 6);
    // Setting zero for one who is not listed changes nothing in the registry.
    assert_eq!(contract.set_token_balance(&admin, &a, 0), Ok(()));
    assert_eq!(get_token_holders(&contract.storage).len(), 1);
}

#[test]
fn limits_are_reported() {
    let (mut contract, admin) = engine(5000);
    let proposer = Principal::new("proposer");
    let whale = Principal::new("whale");
    let other = Principal::new("other");
    assert!(has_proposal_ids_left(&contract.storage));
    assert_eq!(contract.set_token_balance(&admin, &proposer, 200), Ok(()));
    assert_eq!(contract.set_token_balance(&admin, &whale, u32::MAX), Ok(()));
    assert_eq!(contract.set_token_balance(&admin, &other, 1), Ok(()));
    let id = contract.submit_proposal(0, &proposer, text("m"), 150).unwrap();
    assert!(has_tally_room(&contract.storage, id, &whale, true));
    assert_eq!(contract.vote(0, &whale, id, true), Ok(()));
    assert!(!has_tally_room(&contract.storage, id, &other, true));
    assert!(has_tally_room(&contract.storage, id, &other, false));
    assert!(has_tally_room(&contract.storage, id + 1, &other, true));
    assert!(has_refund_room(&contract.storage, id));
    assert_eq!(contract.set_token_balance(&admin, &proposer, u32::MAX - 149), Ok(()));
    assert!(!has_refund_room(&contract.storage, id));
    assert_eq!(contract.set_token_balance(&admin, &proposer, u32::MAX - 150), Ok(()));
    assert!(has_refund_room(&contract.storage, id));
    assert_eq!(contract.cancel_proposal(&proposer, id), Ok(()));
    assert_eq!(balance(&contract, &proposer), u32::MAX);
}

#[test]
fn storage_records_are_kept_by_key() {
    let mut storage = GovernanceStorage::new();
    let a = Principal::new("a");
    let b = Principal::new("b");
    assert_eq!(next_proposal_id(&mut storage), 1);
    assert_eq!(next_proposal_id(&mut storage), 2);
    assert_eq!(peek_next_proposal_id(&storage), 3);
    assert_eq!(get_proposal(&storage, 7).err(), Some(GovernanceError::NotFound));
    let proposal = Proposal {
        id: 7,
        proposer: a.clone(),
        metadata: text("seven"),
        stake: 1,
        status: ProposalStatus::Active,
        yes_votes: 2,
        no_votes: 3,
        timestamp: 4,
        executed: false,
    };
    store_proposal(&mut storage, &proposal);
    let mut changed = proposal.clone();
    changed.id = 8;
    changed.metadata = text("eight");
    store_proposal(&mut storage, &changed);
    changed.id = 7;
    changed.metadata = text("seven again");
    store_proposal(&mut storage, &changed);
    assert_eq!(get_proposal(&storage, 7).unwrap().metadata, text("seven again"));
    assert_eq!(get_proposal(&storage, 8).unwrap().metadata, text("eight"));

    assert!(get_vote(&storage, 7, &a).is_none());
    store_vote(&mut storage, 7, &Vote { voter: a.clone(), in_favor: true, weight: 5 });
    store_vote(&mut storage, 8, &Vote { voter: a.clone(), in_favor: false, weight: 6 });
    assert_eq!(get_vote(&storage, 7, &a).unwrap().weight, 5);
    assert_eq!(get_vote(&storage, 8, &a).unwrap().weight, 6);
    assert!(get_vote(&storage, 7, &b).is_none());

    assert_eq!(get_voters(&storage, 7).len(), 0);
    let mut list = PrincipalList::new();
    list.push_back(a.clone());
    list.push_back(b.clone());
    store_voters(&mut storage, 7, &list);
    assert_eq!(get_voters(&storage, 7).len(), 2);
    assert_eq!(get_voters(&storage, 8).len(), 0);

    assert_eq!(get_token_balance(&storage, &a), 0);
    update_token_balance(&mut storage, &a, 9);
    update_token_balance(&mut storage, &b, 10);
    update_token_balance(&mut storage, &a, 11);
    assert_eq!(get_token_balance(&storage, &a), 11);
    assert_eq!(get_token_balance(&storage, &b), 10);
}
