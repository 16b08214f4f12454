use zaps::account::AccountId;
use zaps::governance::{GovError, GovernanceConfig, GovernanceContract, ProposalStatus, VoteChoice};

fn default_config() -> GovernanceConfig {
    GovernanceConfig {
        voting_period_ledgers: 100,
        timelock_ledgers: 50,
        quorum_votes: 10,
        proposal_threshold: 5,
    }
}

fn payload() -> Vec<u8> {
    b"set_fee:50".to_vec()
}

fn description() -> Vec<u8> {
    b"Reduce protocol fee to 50 bps".to_vec()
}

struct Setup {
    client: GovernanceContract,
    ledger: u32,
    next_account: AccountId,
    admin: AccountId,
    /// Voter with power 10 (meets quorum alone).
    voter_a: AccountId,
    /// Voter with power 5.
    voter_b: AccountId,
}

impl Setup {
    fn new() -> Self {
        let mut client = GovernanceContract::new();
        let admin = 1;
        let voter_a = 2;
        let voter_b = 3;
        client.initialize(admin, default_config()).unwrap();
        client.set_voting_power(voter_a, 10).unwrap();
        client.set_voting_power(voter_b, 5).unwrap();
        Setup { client, ledger: 0, next_account: 4, admin, voter_a, voter_b }
    }

    fn generate(&mut self) -> AccountId {
        let a = self.next_account;
        self.next_account += 1;
        a
    }

    /// Create a proposal from voter_a and return its id.
    fn create_proposal(&mut self) -> u64 {
        self.client.propose(self.voter_a, payload(), description(), self.ledger).unwrap()
    }
}

#[test]
fn test_double_init_rejected() {
    let mut s = Setup::new();
    assert_eq!(s.client.initialize(s.admin, default_config()), Err(GovError::AlreadyInitialized));
}

#[test]
fn test_invalid_config_rejected() {
    let mut client = GovernanceContract::new();
    let bad_config = GovernanceConfig {
        voting_period_ledgers: 0,
        timelock_ledgers: 50,
        quorum_votes: 10,
        proposal_threshold: 5,
    };
    assert_eq!(client.initialize(1, bad_config), Err(GovError::InvalidConfig));
}

#[test]
fn test_set_and_get_voting_power() {
    let s = Setup::new();
    assert_eq!(s.client.get_voting_power(s.voter_a), 10);
    assert_eq!(s.client.get_voting_power(s.voter_b), 5);
}

#[test]
fn test_address_with_no_power_has_zero() {
    let mut s = Setup::new();
    let unknown = s.generate();
    assert_eq!(s.client.get_voting_power(unknown), 0);
}

#[test]
fn test_delegate_increases_delegatee_power() {
    let mut s = Setup::new();
    s.client.delegate(s.voter_b, s.voter_a).unwrap();
    assert_eq!(s.client.get_voting_power(s.voter_a), 15);
    assert_eq!(s.client.get_voting_power(s.voter_b), 5);
}

#[test]
fn test_delegate_to_self_rejected() {
    let mut s = Setup::new();
    assert_eq!(s.client.delegate(s.voter_a, s.voter_a), Err(GovError::CannotDelegateToSelf));
}

#[test]
fn test_double_delegation_rejected() {
    let mut s = Setup::new();
    s.client.delegate(s.voter_b, s.voter_a).unwrap();
    assert_eq!(s.client.delegate(s.voter_b, s.voter_a), Err(GovError::AlreadyDelegated));
}

#[test]
fn test_undelegate_restores_power() {
    let mut s = Setup::new();
    s.client.delegate(s.voter_b, s.voter_a).unwrap();
    assert_eq!(s.client.get_voting_power(s.voter_a), 15);
    s.client.undelegate(s.voter_b).unwrap();
    assert_eq!(s.client.get_voting_power(s.voter_a), 10);
}

#[test]
fn test_get_delegate_returns_delegatee() {
    let mut s = Setup::new();
    assert_eq!(s.client.get_delegate(s.voter_b), None);
    s.client.delegate(s.voter_b, s.voter_a).unwrap();
    assert_eq!(s.client.get_delegate(s.voter_b), Some(s.voter_a));
}

#[test]
fn test_propose_creates_proposal() {
    let mut s = Setup::new();
    let id = s.create_proposal();
    assert_eq!(id, 1);
    let p = s.client.get_proposal(id).unwrap();
    assert_eq!(p.proposer, s.voter_a);
    assert_eq!(p.status, ProposalStatus::Active);
    assert_eq!(p.for_votes, 0);
}

#[test]
fn test_propose_insufficient_power_rejected() {
    let mut s = Setup::new();
    let weak = s.generate();
    s.client.set_voting_power(weak, 1).unwrap();
    assert_eq!(
        s.client.propose(weak, payload(), description(), s.ledger),
        Err(GovError::InsufficientVotingPower)
    );
}

#[test]
fn test_proposal_counter_increments() {
    let mut s = Setup::new();
    assert_eq!(s.client.proposal_count(), 0);
    s.create_proposal();
    assert_eq!(s.client.proposal_count(), 1);
    s.create_proposal();
    assert_eq!(s.client.proposal_count(), 2);
}

#[test]
fn test_vote_for_recorded() {
    let mut s = Setup::new();
    let id = s.create_proposal();
    s.client.vote(s.voter_a, id, VoteChoice::For, s.ledger).unwrap();
    let p = s.client.get_proposal(id).unwrap();
    assert_eq!(p.for_votes, 10);
    assert_eq!(s.client.get_vote(id, s.voter_a), Some(VoteChoice::For));
}

#[test]
fn test_vote_against_recorded() {
    let mut s = Setup::new();
    let id = s.create_proposal();
    s.client.vote(s.voter_b, id, VoteChoice::Against, s.ledger).unwrap();
    let p = s.client.get_proposal(id).unwrap();
    assert_eq!(p.against_votes, 5);
}

#[test]
fn test_vote_abstain_recorded() {
    let mut s = Setup::new();
    let id = s.create_proposal();
    s.client.vote(s.voter_a, id, VoteChoice::Abstain, s.ledger).unwrap();
    let p = s.client.get_proposal(id).unwrap();
    assert_eq!(p.abstain_votes, 10);
}

#[test]
fn test_double_vote_rejected() {
    let mut s = Setup::new();
    let id = s.create_proposal();
    s.client.vote(s.voter_a, id, VoteChoice::For, s.ledger).unwrap();
    assert_eq!(
        s.client.vote(s.voter_a, id, VoteChoice::Against, s.ledger),
        Err(GovError::AlreadyVoted)
    );
}

#[test]
fn test_vote_after_period_rejected() {
    let mut s = Setup::new();
    let id = s.create_proposal();
    s.ledger += 101;
    assert_eq!(
        s.client.vote(s.voter_a, id, VoteChoice::For, s.ledger),
        Err(GovError::VotingPeriodEnded)
    );
}

#[test]
fn test_delegated_power_counts_in_vote() {
    let mut s = Setup::new();
    s.client.delegate(s.voter_b, s.voter_a).unwrap();
    let id = s.create_proposal();
    s.client.vote(s.voter_a, id, VoteChoice::For, s.ledger).unwrap();
    let p = s.client.get_proposal(id).unwrap();
    assert_eq!(p.for_votes, 15);
}

#[test]
fn test_queue_before_voting_ends_rejected() {
    let mut s = Setup::new();
    let id = s.create_proposal();
    s.client.vote(s.voter_a, id, VoteChoice::For, s.ledger).unwrap();
    assert_eq!(s.client.queue(id, s.ledger), Err(GovError::VotingPeriodNotEnded));
}

#[test]
fn test_queue_quorum_not_met_rejected() {
    let mut client = GovernanceContract::new();
    let admin = 1;
    let voter = 2;
    let mut ledger = 0;
    client
        .initialize(
            admin,
            GovernanceConfig {
                voting_period_ledgers: 100,
                timelock_ledgers: 50,
                quorum_votes: 100,
                proposal_threshold: 5,
            },
        )
        .unwrap();
    client.set_voting_power(voter, 5).unwrap();
    let id = client.propose(voter, payload(), description(), ledger).unwrap();
    client.vote(voter, id, VoteChoice::For, ledger).unwrap();
    ledger += 101;
    assert_eq!(client.queue(id, ledger), Err(GovError::QuorumNotMet));
}

#[test]
fn test_queue_defeated_when_against_wins() {
    let mut s = Setup::new();
    let id = s.create_proposal();
    s.client.vote(s.voter_a, id, VoteChoice::Against, s.ledger).unwrap();
    s.client.vote(s.voter_b, id, VoteChoice::For, s.ledger).unwrap();
    s.ledger += 101;
    assert_eq!(s.client.queue(id, s.ledger), Err(GovError::ProposalDefeated));
}

#[test]
fn test_queue_succeeded_proposal() {
    let mut s = Setup::new();
    let id = s.create_proposal();
    s.client.vote(s.voter_a, id, VoteChoice::For, s.ledger).unwrap();
    s.ledger += 101;
    s.client.queue(id, s.ledger).unwrap();
    let p = s.client.get_proposal(id).unwrap();
    assert_eq!(p.status, ProposalStatus::Queued);
    assert_eq!(p.execute_after_ledger, 151);
}

#[test]
fn test_execute_before_timelock_rejected() {
    let mut s = Setup::new();
    let id = s.create_proposal();
    s.client.vote(s.voter_a, id, VoteChoice::For, s.ledger).unwrap();
    s.ledger += 101;
    s.client.queue(id, s.ledger).unwrap();
    assert_eq!(s.client.execute(id, s.ledger), Err(GovError::TimelockNotExpired));
}

#[test]
fn test_execute_after_timelock_succeeds() {
    let mut s = Setup::new();
    let id = s.create_proposal();
    s.client.vote(s.voter_a, id, VoteChoice::For, s.ledger).unwrap();
    s.ledger += 101;
    s.client.queue(id, s.ledger).unwrap();
    s.ledger += 50;
    s.client.execute(id, s.ledger).unwrap();
    assert_eq!(s.client.get_proposal(id).unwrap().status, ProposalStatus::Executed);
}

#[test]
fn test_execute_non_queued_rejected() {
    let mut s = Setup::new();
    let id = s.create_proposal();
    assert_eq!(s.client.execute(id, s.ledger), Err(GovError::ProposalNotQueued));
}

#[test]
fn test_proposer_can_cancel() {
    let mut s = Setup::new();
    let id = s.create_proposal();
    s.client.cancel(s.voter_a, id).unwrap();
    assert_eq!(s.client.get_proposal(id).unwrap().status, ProposalStatus::Cancelled);
}

#[test]
fn test_admin_can_cancel() {
    let mut s = Setup::new();
    let id = s.create_proposal();
    s.client.cancel(s.admin, id).unwrap();
    assert_eq!(s.client.get_proposal(id).unwrap().status, ProposalStatus::Cancelled);
}

#[test]
fn test_unauthorized_cancel_rejected() {
    let mut s = Setup::new();
    let id = s.create_proposal();
    let other = s.generate();
    assert_eq!(s.client.cancel(other, id), Err(GovError::Unauthorized));
}

#[test]
fn test_cancel_executed_proposal_rejected() {
    let mut s = Setup::new();
    let id = s.create_proposal();
    s.client.vote(s.voter_a, id, VoteChoice::For, s.ledger).unwrap();
    s.ledger += 101;
    s.client.queue(id, s.ledger).unwrap();
    s.ledger += 50;
    s.client.execute(id, s.ledger).unwrap();
    assert_eq!(s.client.cancel(s.voter_a, id), Err(GovError::ProposalNotActive));
}

#[test]
fn test_transfer_admin() {
    let mut s = Setup::new();
    let new_admin = s.generate();
    s.client.transfer_admin(new_admin).unwrap();
    assert_eq!(s.client.get_admin(), Ok(new_admin));
}

#[test]
fn test_update_config() {
    let mut s = Setup::new();
    let new_config = GovernanceConfig {
        voting_period_ledgers: 200,
        timelock_ledgers: 100,
        quorum_votes: 20,
        proposal_threshold: 10,
    };
    s.client.update_config(new_config).unwrap();
    let cfg = s.client.get_config().unwrap();
    assert_eq!(cfg.voting_period_ledgers, 200);
    assert_eq!(cfg.timelock_ledgers, 100);
}

#[test]
fn test_update_config_invalid_rejected() {
    let mut s = Setup::new();
    let bad = GovernanceConfig {
        voting_period_ledgers: 100,
        timelock_ledgers: 0,
        quorum_votes: 10,
        proposal_threshold: 5,
    };
    assert_eq!(s.client.update_config(bad), Err(GovError::InvalidConfig));
}

#[test]
fn test_full_proposal_lifecycle() {
    let mut s = Setup::new();
    let id = s.create_proposal();
    assert_eq!(s.client.get_proposal(id).unwrap().status, ProposalStatus::Active);
    s.client.vote(s.voter_a, id, VoteChoice::For, s.ledger).unwrap();
    s.client.vote(s.voter_b, id, VoteChoice::Abstain, s.ledger).unwrap();
    s.ledger += 101;
    s.client.queue(id, s.ledger).unwrap();
    assert_eq!(s.client.get_proposal(id).unwrap().status, ProposalStatus::Queued);
    s.ledger += 50;
    s.client.execute(id, s.ledger).unwrap();
    assert_eq!(s.client.get_proposal(id).unwrap().status, ProposalStatus::Executed);
}
