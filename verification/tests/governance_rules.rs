use zaps::governance::{
    GovError, GovernanceConfig, GovernanceContract, ProposalExecuted, ProposalStatus, VoteChoice,
};

fn config() -> GovernanceConfig {
    GovernanceConfig { voting_period_ledgers: 100, timelock_ledgers: 50, quorum_votes: 10, proposal_threshold: 5 }
}

fn ready() -> GovernanceContract {
    let mut c = GovernanceContract::new();
    c.initialize(1, config()).unwrap();
    c.set_voting_power(2, 10).unwrap();
    c.set_voting_power(3, 5).unwrap();
    c
}

#[test]
fn uninitialized_contract_refuses_admin_calls() {
    let mut c = GovernanceContract::new();
    assert_eq!(c.set_voting_power(2, 10), Err(GovError::NotInitialized));
    assert_eq!(c.update_config(config()), Err(GovError::NotInitialized));
    assert_eq!(c.transfer_admin(9), Err(GovError::NotInitialized));
    assert_eq!(c.get_admin(), Err(GovError::NotInitialized));
    assert_eq!(c.get_config(), Err(GovError::NotInitialized));
    assert_eq!(c.propose(2, vec![], vec![], 0), Err(GovError::NotInitialized));
    assert_eq!(c.proposal_count(), 0);
}

#[test]
fn unknown_proposal_is_not_found() {
    let mut c = ready();
    assert_eq!(c.vote(2, 7, VoteChoice::For, 0), Err(GovError::ProposalNotFound));
    assert_eq!(c.queue(7, 0), Err(GovError::ProposalNotFound));
    assert_eq!(c.execute(7, 0), Err(GovError::ProposalNotFound));
    assert_eq!(c.cancel(2, 7), Err(GovError::ProposalNotFound));
    assert!(c.get_proposal(7).is_err());
}

#[test]
fn undelegate_without_delegation_reports_not_found() {
    let mut c = ready();
    assert_eq!(c.undelegate(3), Err(GovError::ProposalNotFound));
}

#[test]
fn delegate_returns_power_and_undelegate_returns_delegatee() {
    let mut c = ready();
    assert_eq!(c.delegate(3, 2), Ok(5));
    assert_eq!(c.undelegate(3), Ok(2));
    assert_eq!(c.get_delegate(3), None);
    assert_eq!(c.get_voting_power(2), 10);
    assert_eq!(c.get_voting_power(3), 5);
}

#[test]
fn undelegate_takes_back_exactly_what_was_delegated() {
    let mut c = GovernanceContract::new();
    c.initialize(1, config()).unwrap();
    c.set_voting_power(10, 10).unwrap();
    c.set_voting_power(11, 5).unwrap();
    c.set_voting_power(12, 7).unwrap();
    c.delegate(11, 10).unwrap();
    c.delegate(12, 10).unwrap();
    assert_eq!(c.get_voting_power(10), 22);
    assert_eq!(c.get_delegated_amount(11), 5);
    // The first delegator's power grows after it delegated.
    c.set_voting_power(11, 20).unwrap();
    assert_eq!(c.get_voting_power(10), 22);
    c.undelegate(11).unwrap();
    // Only the 5 that was delegated is taken back; the other 7 still count.
    assert_eq!(c.get_voting_power(10), 17);
    assert_eq!(c.get_delegated_amount(11), 0);
    assert_eq!(c.get_delegate(12), Some(10));
}

#[test]
fn vote_returns_counted_power_and_ends_inclusively() {
    let mut c = ready();
    let id = c.propose(2, vec![1], vec![2], 0).unwrap();
    // Voting is allowed up to and including the last ledger of the period.
    assert_eq!(c.vote(3, id, VoteChoice::Against, 100), Ok(5));
    assert_eq!(c.get_vote(id, 3), Some(VoteChoice::Against));
    assert_eq!(c.get_vote(id, 2), None);
}

#[test]
fn queue_returns_execution_ledger_and_timelock_ends_inclusively() {
    let mut c = ready();
    let id = c.propose(2, vec![7, 8, 9], vec![], 0).unwrap();
    c.vote(2, id, VoteChoice::For, 0).unwrap();
    assert_eq!(c.queue(id, 101), Ok(151));
    assert_eq!(c.execute(id, 150), Err(GovError::TimelockNotExpired));
    // Execution hands back the event to publish: the id and the payload.
    assert_eq!(c.execute(id, 151), Ok(ProposalExecuted { proposal_id: id, payload: vec![7, 8, 9] }));
    assert_eq!(c.execute(id, 152), Err(GovError::ProposalNotQueued));
}

#[test]
fn proposal_records_proposer_payload_and_voting_end() {
    let mut c = ready();
    let id = c.propose(2, b"set_fee:50".to_vec(), b"fee".to_vec(), 7).unwrap();
    let p = c.get_proposal(id).unwrap();
    assert_eq!(p.id, 1);
    assert_eq!(p.payload, b"set_fee:50".to_vec());
    assert_eq!(p.description, b"fee".to_vec());
    assert_eq!(p.vote_end_ledger, 107);
    assert_eq!(p.execute_after_ledger, 0);
}

#[test]
fn tie_is_defeated() {
    let mut c = ready();
    c.set_voting_power(4, 10).unwrap();
    let id = c.propose(2, vec![], vec![], 0).unwrap();
    c.vote(2, id, VoteChoice::For, 0).unwrap();
    c.vote(4, id, VoteChoice::Against, 0).unwrap();
    assert_eq!(c.queue(id, 101), Err(GovError::ProposalDefeated));
    assert_eq!(c.get_proposal(id).unwrap().status, ProposalStatus::Active);
}

#[test]
fn cancelled_proposal_is_final() {
    let mut c = ready();
    let id = c.propose(2, vec![], vec![], 0).unwrap();
    c.cancel(2, id).unwrap();
    assert_eq!(c.cancel(1, id), Err(GovError::ProposalNotActive));
    assert_eq!(c.vote(3, id, VoteChoice::For, 0), Err(GovError::ProposalNotActive));
    assert_eq!(c.queue(id, 101), Err(GovError::ProposalNotActive));
    assert_eq!(c.execute(id, 500), Err(GovError::ProposalNotQueued));
    assert_eq!(c.get_proposal(id).unwrap().status, ProposalStatus::Cancelled);
}

#[test]
fn queued_proposal_can_be_cancelled_but_not_queued_again() {
    let mut c = ready();
    let id = c.propose(2, vec![], vec![], 0).unwrap();
    c.vote(2, id, VoteChoice::For, 0).unwrap();
    c.queue(id, 101).unwrap();
    assert_eq!(c.queue(id, 102), Err(GovError::ProposalNotActive));
    assert_eq!(c.vote(3, id, VoteChoice::For, 102), Err(GovError::ProposalNotActive));
    c.cancel(1, id).unwrap();
    assert_eq!(c.get_proposal(id).unwrap().status, ProposalStatus::Cancelled);
}

#[test]
fn rejected_call_changes_nothing() {
    let mut c = ready();
    let id = c.propose(2, vec![], vec![], 0).unwrap();
    c.vote(2, id, VoteChoice::For, 0).unwrap();
    assert_eq!(c.vote(2, id, VoteChoice::For, 0), Err(GovError::AlreadyVoted));
    assert_eq!(c.get_proposal(id).unwrap().for_votes, 10);
    assert_eq!(c.initialize(9, config()), Err(GovError::AlreadyInitialized));
    assert_eq!(c.get_admin(), Ok(1));
}

#[test]
fn error_codes_follow_declaration_order() {
    assert_eq!(GovError::AlreadyInitialized.code(), 1);
    assert_eq!(GovError::QuorumNotMet.code(), 9);
    assert_eq!(GovError::AlreadyDelegated.code(), 16);
}
