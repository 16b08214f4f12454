//! Protocol parameter governance: proposal creation, token-weighted voting,
//! single-level delegation, quorum enforcement and time-locked execution.
//!
//! The contract's storage is held by [`GovernanceContract`]; its abstract
//! meaning is [`GovState`].  Every entry point is specified by a step function
//! over `GovState` that either yields the next state (and a result) or the
//! error with which the call is rejected, in which case nothing changes.
use crate::account::{stored_or_zero, AccountId};
use std::collections::HashMap;
use vstd::prelude::*;

verus! {

broadcast use vstd::std_specs::hash::group_hash_axioms;

/// Governance configuration parameters.
#[derive(Clone, Copy, PartialEq, Eq, Structural, Debug)]
pub struct GovernanceConfig {
    /// Ledgers a proposal stays open for voting.
    pub voting_period_ledgers: u32,
    /// Ledgers between queue and execute (time-lock).
    pub timelock_ledgers: u32,
    /// Minimum total votes (for + against + abstain) for a proposal to be valid.
    pub quorum_votes: i128,
    /// Minimum voting power required to create a proposal.
    pub proposal_threshold: i128,
}

impl GovernanceConfig {
    /// All four parameters are strictly positive.
    pub open spec fn is_valid(self) -> bool {
        &&& self.voting_period_ledgers > 0
        &&& self.timelock_ledgers > 0
        &&& self.quorum_votes > 0
        &&& self.proposal_threshold > 0
    }

    fn check_valid(&self) -> (r: bool)
        ensures
            r == self.is_valid(),
    {
        self.voting_period_ledgers != 0 && self.timelock_ledgers != 0 && self.quorum_votes > 0
            && self.proposal_threshold > 0
    }
}

/// Proposal state machine.
#[derive(Clone, Copy, PartialEq, Eq, Structural, Debug)]
pub enum ProposalStatus {
    Active,
    Defeated,
    Succeeded,
    Queued,
    Executed,
    Cancelled,
}

/// A governance proposal.
#[derive(Clone, PartialEq, Eq, Debug)]
pub struct Proposal {
    pub id: u64,
    pub proposer: AccountId,
    /// Arbitrary payload describing the parameter change (interpreted off-chain).
    pub payload: Vec<u8>,
    /// Human-readable description, as raw bytes.
    pub description: Vec<u8>,
    /// Ledger at which voting ends.
    pub vote_end_ledger: u32,
    /// Ledger after which the proposal may be executed (set when queued).
    pub execute_after_ledger: u32,
    pub for_votes: i128,
    pub against_votes: i128,
    pub abstain_votes: i128,
    pub status: ProposalStatus,
}

/// What `execute` publishes: the executed proposal and its payload.
#[derive(Clone, PartialEq, Eq, Debug)]
pub struct ProposalExecuted {
    pub proposal_id: u64,
    pub payload: Vec<u8>,
}

/// Vote choice.
#[derive(Clone, Copy, PartialEq, Eq, Structural, Debug)]
pub enum VoteChoice {
    For,
    Against,
    Abstain,
}

/// Reasons for which the governance contract rejects a call.
#[derive(Clone, Copy, PartialEq, Eq, Structural, Debug)]
pub enum GovError {
    AlreadyInitialized,
    NotInitialized,
    Unauthorized,
    ProposalNotFound,
    ProposalNotActive,
    VotingPeriodEnded,
    VotingPeriodNotEnded,
    AlreadyVoted,
    QuorumNotMet,
    ProposalDefeated,
    TimelockNotExpired,
    ProposalNotQueued,
    InsufficientVotingPower,
    InvalidConfig,
    CannotDelegateToSelf,
    AlreadyDelegated,
}

impl GovError {
    /// The contract error code of this error (1 to 16, in declaration order).
    pub open spec fn spec_code(self) -> u32 {
        match self {
            GovError::AlreadyInitialized => 1,
            GovError::NotInitialized => 2,
            GovError::Unauthorized => 3,
            GovError::ProposalNotFound => 4,
            GovError::ProposalNotActive => 5,
            GovError::VotingPeriodEnded => 6,
            GovError::VotingPeriodNotEnded => 7,
            GovError::AlreadyVoted => 8,
            GovError::QuorumNotMet => 9,
            GovError::ProposalDefeated => 10,
            GovError::TimelockNotExpired => 11,
            GovError::ProposalNotQueued => 12,
            GovError::InsufficientVotingPower => 13,
            GovError::InvalidConfig => 14,
            GovError::CannotDelegateToSelf => 15,
            GovError::AlreadyDelegated => 16,
        }
    }

    /// The contract error code of this error.
    pub fn code(&self) -> (c: u32)
        ensures
            c == self.spec_code(),
    {
        match self {
            GovError::AlreadyInitialized => 1,
            GovError::NotInitialized => 2,
            GovError::Unauthorized => 3,
            GovError::ProposalNotFound => 4,
            GovError::ProposalNotActive => 5,
            GovError::VotingPeriodEnded => 6,
            GovError::VotingPeriodNotEnded => 7,
            GovError::AlreadyVoted => 8,
            GovError::QuorumNotMet => 9,
            GovError::ProposalDefeated => 10,
            GovError::TimelockNotExpired => 11,
            GovError::ProposalNotQueued => 12,
            GovError::InsufficientVotingPower => 13,
            GovError::InvalidConfig => 14,
            GovError::CannotDelegateToSelf => 15,
            GovError::AlreadyDelegated => 16,
        }
    }
}

/// The abstract content of the governance contract's storage.
pub struct GovState {
    pub admin: Option<AccountId>,
    pub config: Option<GovernanceConfig>,
    /// Id of the most recently created proposal (0 before the first).
    pub proposal_counter: u64,
    pub proposals: Map<u64, Proposal>,
    /// Voting record: (proposal id, voter) to the choice cast.
    pub votes: Map<(u64, AccountId), VoteChoice>,
    /// Base voting power assigned by the admin.
    pub voting_power: Map<AccountId, i128>,
    /// Delegation target of each delegator.
    pub delegate_target: Map<AccountId, AccountId>,
    /// Accumulated power delegated to each delegatee.
    pub delegated_power: Map<AccountId, i128>,
    /// The power each delegator delegated, as it was when it delegated.
    pub delegated_amount: Map<AccountId, i128>,
}

/// A result with its success value dropped.
pub open spec fn without_value<R>(result: Result<R, GovError>) -> Result<(), GovError> {
    match result {
        Ok(_) => Ok(()),
        Err(e) => Err(e),
    }
}

/// How a call relates the state before and after it and its result to the
/// step that specifies it: on success the step's state and value, on
/// rejection the step's error and no change at all.
pub open spec fn outcome<R>(
    before: GovState,
    after: GovState,
    result: Result<R, GovError>,
    step: Result<(GovState, R), GovError>,
) -> bool {
    match step {
        Ok((next, value)) => after == next && result == Ok::<R, GovError>(value),
        Err(e) => after == before && result == Err::<R, GovError>(e),
    }
}

impl GovState {
    /// Base voting power of `a` (zero when none was assigned).
    pub open spec fn own_power(self, a: AccountId) -> int {
        stored_or_zero(self.voting_power, a)
    }

    /// Power delegated to `a` by others (zero when none).
    pub open spec fn delegated_to(self, a: AccountId) -> int {
        stored_or_zero(self.delegated_power, a)
    }

    /// The power that delegator `a` delegated (zero when none).
    pub open spec fn amount_delegated_by(self, a: AccountId) -> int {
        stored_or_zero(self.delegated_amount, a)
    }

    /// Effective voting power: own power plus power delegated to `a`.
    pub open spec fn effective_power(self, a: AccountId) -> int {
        self.own_power(a) + self.delegated_to(a)
    }

    /// Whether `voter` has voted on proposal `id`.
    pub open spec fn has_voted(self, id: u64, voter: AccountId) -> bool {
        self.votes.contains_key((id, voter))
    }

    /// The invariant that every reachable state satisfies.
    pub open spec fn wf(self) -> bool {
        &&& self.admin is Some <==> self.config is Some
        &&& self.admin is None ==> self.proposal_counter == 0
        &&& (self.config matches Some(c) ==> c.is_valid())
        &&& forall|id: u64|
            #![trigger self.proposals.contains_key(id)]
            self.proposals.contains_key(id) ==> {
                let p = self.proposals[id];
                &&& p.id == id
                &&& 1 <= id <= self.proposal_counter
                &&& (p.status == ProposalStatus::Queued || p.status == ProposalStatus::Executed)
                    ==> p.for_votes > p.against_votes
            }
    }

    /// A state with nothing stored: the contract before `initialize`.
    pub open spec fn empty() -> GovState {
        GovState {
            admin: None,
            config: None,
            proposal_counter: 0,
            proposals: Map::empty(),
            votes: Map::empty(),
            voting_power: Map::empty(),
            delegate_target: Map::empty(),
            delegated_power: Map::empty(),
            delegated_amount: Map::empty(),
        }
    }

    pub open spec fn initialize_step(self, admin: AccountId, config: GovernanceConfig) -> Result<
        (GovState, ()),
        GovError,
    > {
        if self.admin is Some {
            Err(GovError::AlreadyInitialized)
        } else if !config.is_valid() {
            Err(GovError::InvalidConfig)
        } else {
            Ok((GovState { admin: Some(admin), config: Some(config), proposal_counter: 0, ..self }, ()))
        }
    }

    pub open spec fn set_voting_power_step(self, account: AccountId, power: i128) -> Result<
        (GovState, ()),
        GovError,
    > {
        if self.admin is None {
            Err(GovError::NotInitialized)
        } else {
            Ok((GovState { voting_power: self.voting_power.insert(account, power), ..self }, ()))
        }
    }

    pub open spec fn update_config_step(self, config: GovernanceConfig) -> Result<
        (GovState, ()),
        GovError,
    > {
        if self.admin is None {
            Err(GovError::NotInitialized)
        } else if !config.is_valid() {
            Err(GovError::InvalidConfig)
        } else {
            Ok((GovState { config: Some(config), ..self }, ()))
        }
    }

    /// Delegation adds the delegator's own power to the delegatee's accumulated
    /// delegated power and records that amount for the delegator; the value is
    /// the power delegated.
    pub open spec fn delegate_step(self, delegator: AccountId, delegatee: AccountId) -> Result<
        (GovState, i128),
        GovError,
    > {
        if delegator == delegatee {
            Err(GovError::CannotDelegateToSelf)
        } else if self.delegate_target.contains_key(delegator) {
            Err(GovError::AlreadyDelegated)
        } else {
            let power = self.own_power(delegator);
            let total = self.delegated_to(delegatee) + power;
            Ok(
                (
                    GovState {
                        delegate_target: self.delegate_target.insert(delegator, delegatee),
                        delegated_power: self.delegated_power.insert(delegatee, total as i128),
                        delegated_amount: self.delegated_amount.insert(delegator, power as i128),
                        ..self
                    },
                    power as i128,
                ),
            )
        }
    }

    /// The sum computed by `delegate`, when it gets that far, fits in an `i128`.
    pub open spec fn delegate_in_range(self, delegator: AccountId, delegatee: AccountId) -> bool {
        delegator != delegatee && !self.delegate_target.contains_key(delegator) ==> i128::MIN
            <= self.delegated_to(delegatee) + self.own_power(delegator) <= i128::MAX
    }

    /// Removing a delegation takes back from the delegatee exactly the power
    /// that the delegator delegated (never going below zero), whatever its own
    /// power is now; the value is the former delegatee.
    /// A missing delegation is reported as `ProposalNotFound`.
    pub open spec fn undelegate_step(self, delegator: AccountId) -> Result<
        (GovState, AccountId),
        GovError,
    > {
        if !self.delegate_target.contains_key(delegator) {
            Err(GovError::ProposalNotFound)
        } else {
            let delegatee = self.delegate_target[delegator];
            let rest = self.delegated_to(delegatee) - self.amount_delegated_by(delegator);
            let new_total = if rest > 0 {
                rest
            } else {
                0
            };
            Ok(
                (
                    GovState {
                        delegate_target: self.delegate_target.remove(delegator),
                        delegated_power: self.delegated_power.insert(delegatee, new_total as i128),
                        delegated_amount: self.delegated_amount.remove(delegator),
                        ..self
                    },
                    delegatee,
                ),
            )
        }
    }

    /// The difference computed by `undelegate` fits in an `i128`.
    pub open spec fn undelegate_in_range(self, delegator: AccountId) -> bool {
        self.delegate_target.contains_key(delegator) ==> i128::MIN <= self.delegated_to(
            self.delegate_target[delegator],
        ) - self.amount_delegated_by(delegator) <= i128::MAX
    }

    /// A new proposal gets the next id and stays open until
    /// `current_ledger + voting_period_ledgers`; the value is its id.
    pub open spec fn propose_step(
        self,
        proposer: AccountId,
        payload: Vec<u8>,
        description: Vec<u8>,
        current_ledger: u32,
    ) -> Result<(GovState, u64), GovError> {
        match self.config {
            None => Err(GovError::NotInitialized),
            Some(config) => {
                if self.effective_power(proposer) < config.proposal_threshold {
                    Err(GovError::InsufficientVotingPower)
                } else {
                    let id = (self.proposal_counter + 1) as u64;
                    let proposal = Proposal {
                        id,
                        proposer,
                        payload,
                        description,
                        vote_end_ledger: (current_ledger + config.voting_period_ledgers) as u32,
                        execute_after_ledger: 0,
                        for_votes: 0,
                        against_votes: 0,
                        abstain_votes: 0,
                        status: ProposalStatus::Active,
                    };
                    Ok(
                        (
                            GovState {
                                proposals: self.proposals.insert(id, proposal),
                                proposal_counter: id,
                                ..self
                            },
                            id,
                        ),
                    )
                }
            },
        }
    }

    /// The arithmetic done by `propose` stays within its integer types.
    pub open spec fn propose_in_range(self, proposer: AccountId, current_ledger: u32) -> bool {
        self.config matches Some(config) ==> {
            &&& i128::MIN <= self.effective_power(proposer) <= i128::MAX
            &&& self.effective_power(proposer) >= config.proposal_threshold ==> {
                &&& self.proposal_counter < u64::MAX
                &&& current_ledger + config.voting_period_ledgers <= u32::MAX
            }
        }
    }

    /// The proposal with a vote of `power` added to the tally of `choice`.
    pub open spec fn tallied(p: Proposal, choice: VoteChoice, power: int) -> Proposal {
        match choice {
            VoteChoice::For => Proposal { for_votes: (p.for_votes + power) as i128, ..p },
            VoteChoice::Against => Proposal { against_votes: (p.against_votes + power) as i128, ..p },
            VoteChoice::Abstain => Proposal { abstain_votes: (p.abstain_votes + power) as i128, ..p },
        }
    }

    /// The tally of `choice` in `p`.
    pub open spec fn tally_of(p: Proposal, choice: VoteChoice) -> int {
        match choice {
            VoteChoice::For => p.for_votes as int,
            VoteChoice::Against => p.against_votes as int,
            VoteChoice::Abstain => p.abstain_votes as int,
        }
    }

    /// A vote on an active proposal, within its voting period, by an account
    /// that has not voted on it yet, adds the voter's effective power to the
    /// chosen tally and records the choice; the value is the power counted.
    pub open spec fn vote_step(
        self,
        voter: AccountId,
        proposal_id: u64,
        choice: VoteChoice,
        current_ledger: u32,
    ) -> Result<(GovState, i128), GovError> {
        if !self.proposals.contains_key(proposal_id) {
            Err(GovError::ProposalNotFound)
        } else {
            let p = self.proposals[proposal_id];
            if p.status != ProposalStatus::Active {
                Err(GovError::ProposalNotActive)
            } else if current_ledger > p.vote_end_ledger {
                Err(GovError::VotingPeriodEnded)
            } else if self.has_voted(proposal_id, voter) {
                Err(GovError::AlreadyVoted)
            } else {
                let power = self.effective_power(voter);
                Ok(
                    (
                        GovState {
                            proposals: self.proposals.insert(
                                proposal_id,
                                GovState::tallied(p, choice, power),
                            ),
                            votes: self.votes.insert((proposal_id, voter), choice),
                            ..self
                        },
                        power as i128,
                    ),
                )
            }
        }
    }

    /// Whether a vote passes every check before the voter's power is counted.
    pub open spec fn vote_admitted(self, voter: AccountId, proposal_id: u64, current_ledger: u32) -> bool {
        &&& self.proposals.contains_key(proposal_id)
        &&& self.proposals[proposal_id].status == ProposalStatus::Active
        &&& current_ledger <= self.proposals[proposal_id].vote_end_ledger
        &&& !self.has_voted(proposal_id, voter)
    }

    /// The arithmetic done by `vote`, when it gets that far, stays within `i128`.
    pub open spec fn vote_in_range(
        self,
        voter: AccountId,
        proposal_id: u64,
        choice: VoteChoice,
        current_ledger: u32,
    ) -> bool {
        self.vote_admitted(voter, proposal_id, current_ledger) ==> {
            &&& i128::MIN <= self.effective_power(voter) <= i128::MAX
            &&& i128::MIN <= GovState::tally_of(self.proposals[proposal_id], choice)
                + self.effective_power(voter) <= i128::MAX
        }
    }

    /// After the voting period, a proposal with quorum and more votes for than
    /// against is queued until `current_ledger + timelock_ledgers`; the value
    /// is that ledger.
    pub open spec fn queue_step(self, proposal_id: u64, current_ledger: u32) -> Result<
        (GovState, u32),
        GovError,
    > {
        if !self.proposals.contains_key(proposal_id) {
            Err(GovError::ProposalNotFound)
        } else {
            match self.config {
                None => Err(GovError::NotInitialized),
                Some(config) => {
                    let p = self.proposals[proposal_id];
                    if p.status != ProposalStatus::Active {
                        Err(GovError::ProposalNotActive)
                    } else if current_ledger <= p.vote_end_ledger {
                        Err(GovError::VotingPeriodNotEnded)
                    } else if p.for_votes + p.against_votes + p.abstain_votes < config.quorum_votes {
                        Err(GovError::QuorumNotMet)
                    } else if p.for_votes <= p.against_votes {
                        Err(GovError::ProposalDefeated)
                    } else {
                        let after = (current_ledger + config.timelock_ledgers) as u32;
                        Ok(
                            (
                                GovState {
                                    proposals: self.proposals.insert(
                                        proposal_id,
                                        Proposal {
                                            status: ProposalStatus::Queued,
                                            execute_after_ledger: after,
                                            ..p
                                        },
                                    ),
                                    ..self
                                },
                                after,
                            ),
                        )
                    }
                },
            }
        }
    }

    /// The arithmetic done by `queue`, when it gets that far, stays within
    /// its integer types: the vote total is summed once the proposal is found
    /// active past its voting period, and the execution ledger is computed
    /// once the proposal has passed.
    pub open spec fn queue_in_range(self, proposal_id: u64, current_ledger: u32) -> bool {
        (self.proposals.contains_key(proposal_id) && self.config is Some
            && self.proposals[proposal_id].status == ProposalStatus::Active && current_ledger
            > self.proposals[proposal_id].vote_end_ledger) ==> {
            let p = self.proposals[proposal_id];
            let config = self.config->Some_0;
            &&& i128::MIN <= p.for_votes + p.against_votes <= i128::MAX
            &&& i128::MIN <= p.for_votes + p.against_votes + p.abstain_votes <= i128::MAX
            &&& (p.for_votes + p.against_votes + p.abstain_votes >= config.quorum_votes
                && p.for_votes > p.against_votes) ==> current_ledger + config.timelock_ledgers
                <= u32::MAX
        }
    }

    /// A queued proposal whose time-lock has expired becomes executed.
    pub open spec fn execute_step(self, proposal_id: u64, current_ledger: u32) -> Result<
        (GovState, ()),
        GovError,
    > {
        if !self.proposals.contains_key(proposal_id) {
            Err(GovError::ProposalNotFound)
        } else {
            let p = self.proposals[proposal_id];
            if p.status != ProposalStatus::Queued {
                Err(GovError::ProposalNotQueued)
            } else if current_ledger < p.execute_after_ledger {
                Err(GovError::TimelockNotExpired)
            } else {
                Ok(
                    (
                        GovState {
                            proposals: self.proposals.insert(
                                proposal_id,
                                Proposal { status: ProposalStatus::Executed, ..p },
                            ),
                            ..self
                        },
                        (),
                    ),
                )
            }
        }
    }

    /// The proposer or the admin may cancel a proposal that is neither
    /// executed nor already cancelled.
    pub open spec fn cancel_step(self, caller: AccountId, proposal_id: u64) -> Result<
        (GovState, ()),
        GovError,
    > {
        if !self.proposals.contains_key(proposal_id) {
            Err(GovError::ProposalNotFound)
        } else {
            match self.admin {
                None => Err(GovError::NotInitialized),
                Some(admin) => {
                    let p = self.proposals[proposal_id];
                    if caller != p.proposer && caller != admin {
                        Err(GovError::Unauthorized)
                    } else if p.status == ProposalStatus::Executed || p.status
                        == ProposalStatus::Cancelled {
                        Err(GovError::ProposalNotActive)
                    } else {
                        Ok(
                            (
                                GovState {
                                    proposals: self.proposals.insert(
                                        proposal_id,
                                        Proposal { status: ProposalStatus::Cancelled, ..p },
                                    ),
                                    ..self
                                },
                                (),
                            ),
                        )
                    }
                },
            }
        }
    }

    pub open spec fn transfer_admin_step(self, new_admin: AccountId) -> Result<
        (GovState, ()),
        GovError,
    > {
        if self.admin is None {
            Err(GovError::NotInitialized)
        } else {
            Ok((GovState { admin: Some(new_admin), ..self }, ()))
        }
    }
}

/// The governance contract: its storage, and its entry points as methods.
pub struct GovernanceContract {
    admin: Option<AccountId>,
    config: Option<GovernanceConfig>,
    proposal_counter: u64,
    proposals: HashMap<u64, Proposal>,
    votes: HashMap<u64, HashMap<AccountId, VoteChoice>>,
    voting_power: HashMap<AccountId, i128>,
    delegate_target: HashMap<AccountId, AccountId>,
    delegated_power: HashMap<AccountId, i128>,
    delegated_amount: HashMap<AccountId, i128>,
}

/// The voting records held per proposal, seen as one map keyed by (proposal, voter).
pub open spec fn flatten_votes(m: Map<u64, HashMap<AccountId, VoteChoice>>) -> Map<
    (u64, AccountId),
    VoteChoice,
> {
    Map::new(
        |k: (u64, AccountId)| m.contains_key(k.0) && m[k.0]@.contains_key(k.1),
        |k: (u64, AccountId)| m[k.0]@[k.1],
    )
}

impl View for GovernanceContract {
    type V = GovState;

    closed spec fn view(&self) -> GovState {
        GovState {
            admin: self.admin,
            config: self.config,
            proposal_counter: self.proposal_counter,
            proposals: self.proposals@,
            votes: flatten_votes(self.votes@),
            voting_power: self.voting_power@,
            delegate_target: self.delegate_target@,
            delegated_power: self.delegated_power@,
            delegated_amount: self.delegated_amount@,
        }
    }
}

fn get_or_zero(m: &HashMap<AccountId, i128>, a: AccountId) -> (r: i128)
    ensures
        r == stored_or_zero(m@, a),
{
    match m.get(&a) {
        Some(v) => *v,
        None => 0,
    }
}

impl GovernanceContract {
    /// A contract with empty storage, before `initialize`.
    pub fn new() -> (c: Self)
        ensures
            c@ == GovState::empty(),
            c@.wf(),
    {
        let c = GovernanceContract {
            admin: None,
            config: None,
            proposal_counter: 0,
            proposals: HashMap::new(),
            votes: HashMap::new(),
            voting_power: HashMap::new(),
            delegate_target: HashMap::new(),
            delegated_power: HashMap::new(),
            delegated_amount: HashMap::new(),
        };
        assert(c@.votes =~= Map::empty());
        c
    }

    /// Initialise the governance contract with its admin and parameters.
    pub fn initialize(&mut self, admin: AccountId, config: GovernanceConfig) -> (r: Result<
        (),
        GovError,
    >)
        requires
            old(self)@.wf(),
        ensures
            final(self)@.wf(),
            outcome(old(self)@, final(self)@, r, old(self)@.initialize_step(admin, config)),
    {
        if self.admin.is_some() {
            return Err(GovError::AlreadyInitialized);
        }
        if !config.check_valid() {
            return Err(GovError::InvalidConfig);
        }
        self.admin = Some(admin);
        self.config = Some(config);
        self.proposal_counter = 0;
        Ok(())
    }

    /// Assign (or update) the base voting power of an account (admin only).
    pub fn set_voting_power(&mut self, account: AccountId, power: i128) -> (r: Result<
        (),
        GovError,
    >)
        requires
            old(self)@.wf(),
        ensures
            final(self)@.wf(),
            outcome(old(self)@, final(self)@, r, old(self)@.set_voting_power_step(account, power)),
    {
        if self.admin.is_none() {
            return Err(GovError::NotInitialized);
        }
        self.voting_power.insert(account, power);
        Ok(())
    }

    /// Update the governance parameters (admin only).
    pub fn update_config(&mut self, config: GovernanceConfig) -> (r: Result<(), GovError>)
        requires
            old(self)@.wf(),
        ensures
            final(self)@.wf(),
            outcome(old(self)@, final(self)@, r, old(self)@.update_config_step(config)),
    {
        if self.admin.is_none() {
            return Err(GovError::NotInitialized);
        }
        if !config.check_valid() {
            return Err(GovError::InvalidConfig);
        }
        self.config = Some(config);
        Ok(())
    }

    /// Effective voting power of `a`: its own power plus what was delegated to it.
    fn effective_voting_power(&self, a: AccountId) -> (r: i128)
        requires
            i128::MIN <= self@.effective_power(a) <= i128::MAX,
        ensures
            r == self@.effective_power(a),
    {
        let own = get_or_zero(&self.voting_power, a);
        let delegated = get_or_zero(&self.delegated_power, a);
        own + delegated
    }

    /// Delegate the delegator's voting power to `delegatee`; returns the power delegated.
    pub fn delegate(&mut self, delegator: AccountId, delegatee: AccountId) -> (r: Result<
        i128,
        GovError,
    >)
        requires
            old(self)@.wf(),
            old(self)@.delegate_in_range(delegator, delegatee),
        ensures
            final(self)@.wf(),
            outcome(old(self)@, final(self)@, r, old(self)@.delegate_step(delegator, delegatee)),
    {
        if delegator == delegatee {
            return Err(GovError::CannotDelegateToSelf);
        }
        if self.delegate_target.contains_key(&delegator) {
            return Err(GovError::AlreadyDelegated);
        }
        let power = get_or_zero(&self.voting_power, delegator);
        self.delegate_target.insert(delegator, delegatee);
        let current = get_or_zero(&self.delegated_power, delegatee);
        self.delegated_power.insert(delegatee, current + power);
        self.delegated_amount.insert(delegator, power);
        Ok(power)
    }

    /// Remove the delegator's delegation, taking back from the delegatee the
    /// power it delegated; returns the former delegatee.
    pub fn undelegate(&mut self, delegator: AccountId) -> (r: Result<AccountId, GovError>)
        requires
            old(self)@.wf(),
            old(self)@.undelegate_in_range(delegator),
        ensures
            final(self)@.wf(),
            outcome(old(self)@, final(self)@, r, old(self)@.undelegate_step(delegator)),
    {
        let delegatee = match self.delegate_target.get(&delegator) {
            Some(d) => *d,
            None => return Err(GovError::ProposalNotFound),
        };
        let power = get_or_zero(&self.delegated_amount, delegator);
        self.delegate_target.remove(&delegator);
        self.delegated_amount.remove(&delegator);
        let current = get_or_zero(&self.delegated_power, delegatee);
        let rest = current - power;
        let new_total = if rest > 0 {
            rest
        } else {
            0
        };
        self.delegated_power.insert(delegatee, new_total);
        Ok(delegatee)
    }

    /// Create a proposal; returns its id.
    pub fn propose(
        &mut self,
        proposer: AccountId,
        payload: Vec<u8>,
        description: Vec<u8>,
        current_ledger: u32,
    ) -> (r: Result<u64, GovError>)
        requires
            old(self)@.wf(),
            old(self)@.propose_in_range(proposer, current_ledger),
        ensures
            final(self)@.wf(),
            outcome(
                old(self)@,
                final(self)@,
                r,
                old(self)@.propose_step(proposer, payload, description, current_ledger),
            ),
    {
        let config = match self.config {
            Some(c) => c,
            None => return Err(GovError::NotInitialized),
        };
        let power = self.effective_voting_power(proposer);
        if power < config.proposal_threshold {
            return Err(GovError::InsufficientVotingPower);
        }
        let id = self.proposal_counter + 1;
        let proposal = Proposal {
            id,
            proposer,
            payload,
            description,
            vote_end_ledger: current_ledger + config.voting_period_ledgers,
            execute_after_ledger: 0,
            for_votes: 0,
            against_votes: 0,
            abstain_votes: 0,
            status: ProposalStatus::Active,
        };
        self.proposals.insert(id, proposal);
        self.proposal_counter = id;
        Ok(id)
    }

    fn has_voted(&self, proposal_id: u64, voter: AccountId) -> (b: bool)
        ensures
            b == self@.has_voted(proposal_id, voter),
    {
        match self.votes.get(&proposal_id) {
            Some(inner) => inner.contains_key(&voter),
            None => false,
        }
    }

    fn record_vote(&mut self, proposal_id: u64, voter: AccountId, choice: VoteChoice)
        ensures
            final(self)@ == (GovState {
                votes: old(self)@.votes.insert((proposal_id, voter), choice),
                ..old(self)@
            }),
    {
        let mut inner = match self.votes.remove(&proposal_id) {
            Some(m) => m,
            None => HashMap::new(),
        };
        inner.insert(voter, choice);
        self.votes.insert(proposal_id, inner);
        assert(flatten_votes(self.votes@) =~= flatten_votes(old(self).votes@).insert(
            (proposal_id, voter),
            choice,
        ));
    }

    /// Cast a vote with the voter's effective power; returns the power counted.
    pub fn vote(&mut self, voter: AccountId, proposal_id: u64, choice: VoteChoice, current_ledger: u32) -> (r:
        Result<i128, GovError>)
        requires
            old(self)@.wf(),
            old(self)@.vote_in_range(voter, proposal_id, choice, current_ledger),
        ensures
            final(self)@.wf(),
            outcome(
                old(self)@,
                final(self)@,
                r,
                old(self)@.vote_step(voter, proposal_id, choice, current_ledger),
            ),
    {
        let (status, vote_end) = match self.proposals.get(&proposal_id) {
            Some(p) => (p.status, p.vote_end_ledger),
            None => return Err(GovError::ProposalNotFound),
        };
        if status != ProposalStatus::Active {
            return Err(GovError::ProposalNotActive);
        }
        if current_ledger > vote_end {
            return Err(GovError::VotingPeriodEnded);
        }
        if self.has_voted(proposal_id, voter) {
            return Err(GovError::AlreadyVoted);
        }
        let power = self.effective_voting_power(voter);
        let mut proposal = self.proposals.remove(&proposal_id).unwrap();
        match choice {
            VoteChoice::For => proposal.for_votes = proposal.for_votes + power,
            VoteChoice::Against => proposal.against_votes = proposal.against_votes + power,
            VoteChoice::Abstain => proposal.abstain_votes = proposal.abstain_votes + power,
        }
        self.record_vote(proposal_id, voter, choice);
        self.proposals.insert(proposal_id, proposal);
        assert(self.proposals@ =~= old(self).proposals@.insert(
            proposal_id,
            GovState::tallied(old(self).proposals@[proposal_id], choice, power as int),
        ));
        Ok(power)
    }

    /// Queue a succeeded proposal for time-locked execution; returns the
    /// ledger after which it may be executed.
    pub fn queue(&mut self, proposal_id: u64, current_ledger: u32) -> (r: Result<u32, GovError>)
        requires
            old(self)@.wf(),
            old(self)@.queue_in_range(proposal_id, current_ledger),
        ensures
            final(self)@.wf(),
            outcome(old(self)@, final(self)@, r, old(self)@.queue_step(proposal_id, current_ledger)),
    {
        if !self.proposals.contains_key(&proposal_id) {
            return Err(GovError::ProposalNotFound);
        }
        let config = match self.config {
            Some(c) => c,
            None => return Err(GovError::NotInitialized),
        };
        let (status, vote_end, for_votes, against_votes, abstain_votes) = match self.proposals.get(
            &proposal_id,
        ) {
            Some(p) => (p.status, p.vote_end_ledger, p.for_votes, p.against_votes, p.abstain_votes),
            None => return Err(GovError::ProposalNotFound),
        };
        if status != ProposalStatus::Active {
            return Err(GovError::ProposalNotActive);
        }
        if current_ledger <= vote_end {
            return Err(GovError::VotingPeriodNotEnded);
        }
        let total_votes = for_votes + against_votes + abstain_votes;
        if total_votes < config.quorum_votes {
            return Err(GovError::QuorumNotMet);
        }
        if for_votes <= against_votes {
            return Err(GovError::ProposalDefeated);
        }
        let after = current_ledger + config.timelock_ledgers;
        let mut proposal = self.proposals.remove(&proposal_id).unwrap();
        proposal.status = ProposalStatus::Queued;
        proposal.execute_after_ledger = after;
        self.proposals.insert(proposal_id, proposal);
        assert(self.proposals@ =~= old(self).proposals@.insert(
            proposal_id,
            Proposal {
                status: ProposalStatus::Queued,
                execute_after_ledger: after,
                ..old(self).proposals@[proposal_id]
            },
        ));
        Ok(after)
    }

    /// Execute a queued proposal once its time-lock has expired; returns the
    /// event to publish: the proposal's id and its payload.
    pub fn execute(&mut self, proposal_id: u64, current_ledger: u32) -> (r: Result<
        ProposalExecuted,
        GovError,
    >)
        requires
            old(self)@.wf(),
        ensures
            final(self)@.wf(),
            outcome(
                old(self)@,
                final(self)@,
                without_value(r),
                old(self)@.execute_step(proposal_id, current_ledger),
            ),
            r matches Ok(ev) ==> ev.proposal_id == proposal_id && ev.payload@ == old(
                self,
            )@.proposals[proposal_id].payload@,
    {
        let (status, after) = match self.proposals.get(&proposal_id) {
            Some(p) => (p.status, p.execute_after_ledger),
            None => return Err(GovError::ProposalNotFound),
        };
        if status != ProposalStatus::Queued {
            return Err(GovError::ProposalNotQueued);
        }
        if current_ledger < after {
            return Err(GovError::TimelockNotExpired);
        }
        let mut proposal = self.proposals.remove(&proposal_id).unwrap();
        proposal.status = ProposalStatus::Executed;
        let payload = proposal.payload.clone();
        self.proposals.insert(proposal_id, proposal);
        assert(self.proposals@ =~= old(self).proposals@.insert(
            proposal_id,
            Proposal { status: ProposalStatus::Executed, ..old(self).proposals@[proposal_id] },
        ));
        Ok(ProposalExecuted { proposal_id, payload })
    }

    /// Cancel a proposal; only its proposer or the admin may do so.
    pub fn cancel(&mut self, caller: AccountId, proposal_id: u64) -> (r: Result<(), GovError>)
        requires
            old(self)@.wf(),
        ensures
            final(self)@.wf(),
            outcome(old(self)@, final(self)@, r, old(self)@.cancel_step(caller, proposal_id)),
    {
        let (proposer, status) = match self.proposals.get(&proposal_id) {
            Some(p) => (p.proposer, p.status),
            None => return Err(GovError::ProposalNotFound),
        };
        let admin = match self.admin {
            Some(a) => a,
            None => return Err(GovError::NotInitialized),
        };
        if caller != proposer && caller != admin {
            return Err(GovError::Unauthorized);
        }
        if status == ProposalStatus::Executed || status == ProposalStatus::Cancelled {
            return Err(GovError::ProposalNotActive);
        }
        let mut proposal = self.proposals.remove(&proposal_id).unwrap();
        proposal.status = ProposalStatus::Cancelled;
        self.proposals.insert(proposal_id, proposal);
        assert(self.proposals@ =~= old(self).proposals@.insert(
            proposal_id,
            Proposal { status: ProposalStatus::Cancelled, ..old(self).proposals@[proposal_id] },
        ));
        Ok(())
    }

    /// Hand the admin role to `new_admin` (admin only).
    pub fn transfer_admin(&mut self, new_admin: AccountId) -> (r: Result<(), GovError>)
        requires
            old(self)@.wf(),
        ensures
            final(self)@.wf(),
            outcome(old(self)@, final(self)@, r, old(self)@.transfer_admin_step(new_admin)),
    {
        if self.admin.is_none() {
            return Err(GovError::NotInitialized);
        }
        self.admin = Some(new_admin);
        Ok(())
    }

    /// The proposal with id `proposal_id`.
    pub fn get_proposal(&self, proposal_id: u64) -> (r: Result<&Proposal, GovError>)
        ensures
            match r {
                Ok(p) => self@.proposals.contains_key(proposal_id) && *p == self@.proposals[proposal_id],
                Err(e) => !self@.proposals.contains_key(proposal_id) && e == GovError::ProposalNotFound,
            },
    {
        match self.proposals.get(&proposal_id) {
            Some(p) => Ok(p),
            None => Err(GovError::ProposalNotFound),
        }
    }

    /// Effective voting power of `account`.
    pub fn get_voting_power(&self, account: AccountId) -> (r: i128)
        requires
            i128::MIN <= self@.effective_power(account) <= i128::MAX,
        ensures
            r == self@.effective_power(account),
    {
        self.effective_voting_power(account)
    }

    /// Base voting power assigned to `account` (zero when none was assigned).
    pub fn get_own_voting_power(&self, account: AccountId) -> (r: i128)
        ensures
            r == self@.own_power(account),
    {
        get_or_zero(&self.voting_power, account)
    }

    /// Power delegated to `account` by others (zero when none).
    pub fn get_delegated_power(&self, account: AccountId) -> (r: i128)
        ensures
            r == self@.delegated_to(account),
    {
        get_or_zero(&self.delegated_power, account)
    }

    /// The current governance parameters.
    pub fn get_config(&self) -> (r: Result<GovernanceConfig, GovError>)
        ensures
            match self@.config {
                Some(c) => r == Ok::<GovernanceConfig, GovError>(c),
                None => r == Err::<GovernanceConfig, GovError>(GovError::NotInitialized),
            },
    {
        match self.config {
            Some(c) => Ok(c),
            None => Err(GovError::NotInitialized),
        }
    }

    /// The current admin.
    pub fn get_admin(&self) -> (r: Result<AccountId, GovError>)
        ensures
            match self@.admin {
                Some(a) => r == Ok::<AccountId, GovError>(a),
                None => r == Err::<AccountId, GovError>(GovError::NotInitialized),
            },
    {
        match self.admin {
            Some(a) => Ok(a),
            None => Err(GovError::NotInitialized),
        }
    }

    /// Number of proposals created so far (the id of the latest one).
    pub fn proposal_count(&self) -> (r: u64)
        ensures
            r == self@.proposal_counter,
    {
        self.proposal_counter
    }

    /// The choice cast by `voter` on `proposal_id`, if any.
    pub fn get_vote(&self, proposal_id: u64, voter: AccountId) -> (r: Option<VoteChoice>)
        ensures
            r == (if self@.votes.contains_key((proposal_id, voter)) {
                Some(self@.votes[(proposal_id, voter)])
            } else {
                None
            }),
    {
        match self.votes.get(&proposal_id) {
            Some(inner) => match inner.get(&voter) {
                Some(c) => Some(*c),
                None => None,
            },
            None => None,
        }
    }

    /// The power that `delegator` delegated (zero when it has no delegation).
    pub fn get_delegated_amount(&self, delegator: AccountId) -> (r: i128)
        ensures
            r == self@.amount_delegated_by(delegator),
    {
        get_or_zero(&self.delegated_amount, delegator)
    }

    /// The account that `delegator` has delegated to, if any.
    pub fn get_delegate(&self, delegator: AccountId) -> (r: Option<AccountId>)
        ensures
            r == (if self@.delegate_target.contains_key(delegator) {
                Some(self@.delegate_target[delegator])
            } else {
                None
            }),
    {
        match self.delegate_target.get(&delegator) {
            Some(d) => Some(*d),
            None => None,
        }
    }
}

} // verus!
