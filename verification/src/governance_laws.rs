//! Properties of the governance contract that span its entry points.
use crate::account::{stored_or_zero, AccountId};
use crate::governance::{GovError, GovState, GovernanceConfig, Proposal, ProposalStatus, VoteChoice};
use vstd::prelude::*;

verus! {

/// One call of a state-changing entry point of the governance contract,
/// with its arguments (the current ledger where the call reads it).
pub enum GovCall {
    Initialize { admin: AccountId, config: GovernanceConfig },
    SetVotingPower { account: AccountId, power: i128 },
    UpdateConfig { config: GovernanceConfig },
    Delegate { delegator: AccountId, delegatee: AccountId },
    Undelegate { delegator: AccountId },
    Propose { proposer: AccountId, payload: Vec<u8>, description: Vec<u8>, ledger: u32 },
    Vote { voter: AccountId, proposal_id: u64, choice: VoteChoice, ledger: u32 },
    Queue { proposal_id: u64, ledger: u32 },
    Execute { proposal_id: u64, ledger: u32 },
    Cancel { caller: AccountId, proposal_id: u64 },
    TransferAdmin { new_admin: AccountId },
}

/// The state after `call`, or the error with which it is rejected.
pub open spec fn apply(s: GovState, call: GovCall) -> Result<GovState, GovError> {
    match call {
        GovCall::Initialize { admin, config } => match s.initialize_step(admin, config) {
            Ok((n, _)) => Ok(n),
            Err(e) => Err(e),
        },
        GovCall::SetVotingPower { account, power } => match s.set_voting_power_step(account, power) {
            Ok((n, _)) => Ok(n),
            Err(e) => Err(e),
        },
        GovCall::UpdateConfig { config } => match s.update_config_step(config) {
            Ok((n, _)) => Ok(n),
            Err(e) => Err(e),
        },
        GovCall::Delegate { delegator, delegatee } => match s.delegate_step(delegator, delegatee) {
            Ok((n, _)) => Ok(n),
            Err(e) => Err(e),
        },
        GovCall::Undelegate { delegator } => match s.undelegate_step(delegator) {
            Ok((n, _)) => Ok(n),
            Err(e) => Err(e),
        },
        GovCall::Propose { proposer, payload, description, ledger } => match s.propose_step(
            proposer,
            payload,
            description,
            ledger,
        ) {
            Ok((n, _)) => Ok(n),
            Err(e) => Err(e),
        },
        GovCall::Vote { voter, proposal_id, choice, ledger } => match s.vote_step(
            voter,
            proposal_id,
            choice,
            ledger,
        ) {
            Ok((n, _)) => Ok(n),
            Err(e) => Err(e),
        },
        GovCall::Queue { proposal_id, ledger } => match s.queue_step(proposal_id, ledger) {
            Ok((n, _)) => Ok(n),
            Err(e) => Err(e),
        },
        GovCall::Execute { proposal_id, ledger } => match s.execute_step(proposal_id, ledger) {
            Ok((n, _)) => Ok(n),
            Err(e) => Err(e),
        },
        GovCall::Cancel { caller, proposal_id } => match s.cancel_step(caller, proposal_id) {
            Ok((n, _)) => Ok(n),
            Err(e) => Err(e),
        },
        GovCall::TransferAdmin { new_admin } => match s.transfer_admin_step(new_admin) {
            Ok((n, _)) => Ok(n),
            Err(e) => Err(e),
        },
    }
}

/// The arithmetic that `call` does stays within its integer types (the
/// inputs on which the contract would overflow are left out).
pub open spec fn call_in_range(s: GovState, call: GovCall) -> bool {
    match call {
        GovCall::Delegate { delegator, delegatee } => s.delegate_in_range(delegator, delegatee),
        GovCall::Undelegate { delegator } => s.undelegate_in_range(delegator),
        GovCall::Propose { proposer, ledger, .. } => s.propose_in_range(proposer, ledger),
        GovCall::Vote { voter, proposal_id, choice, ledger } => s.vote_in_range(
            voter,
            proposal_id,
            choice,
            ledger,
        ),
        GovCall::Queue { proposal_id, ledger } => s.queue_in_range(proposal_id, ledger),
        _ => true,
    }
}

/// The status changes a proposal may undergo: none; `Active` to `Queued`;
/// `Queued` to `Executed`; or, from any status but `Executed` and
/// `Cancelled`, to `Cancelled`.
pub open spec fn allowed_transition(from: ProposalStatus, to: ProposalStatus) -> bool {
    ||| from == to
    ||| from == ProposalStatus::Active && to == ProposalStatus::Queued
    ||| from == ProposalStatus::Queued && to == ProposalStatus::Executed
    ||| from != ProposalStatus::Executed && from != ProposalStatus::Cancelled && to
        == ProposalStatus::Cancelled
}

/// How one proposal may differ across a call: it is kept; its status moves
/// along an allowed transition; its proposer, payload, description, voting
/// end are fixed; its tallies change only while it is active; and an executed
/// or cancelled proposal does not change at all.
pub open spec fn proposal_evolves(p: Proposal, q: Proposal) -> bool {
    &&& allowed_transition(p.status, q.status)
    &&& q.id == p.id && q.proposer == p.proposer && q.payload == p.payload && q.description
        == p.description && q.vote_end_ledger == p.vote_end_ledger
    &&& p.status != ProposalStatus::Active ==> q.for_votes == p.for_votes && q.against_votes
        == p.against_votes && q.abstain_votes == p.abstain_votes
    &&& (p.status == ProposalStatus::Executed || p.status == ProposalStatus::Cancelled) ==> q == p
}

/// Every call that is not rejected keeps the invariant.
pub proof fn lemma_calls_keep_invariant(s: GovState, call: GovCall)
    requires
        s.wf(),
        call_in_range(s, call),
        apply(s, call) is Ok,
    ensures
        apply(s, call)->Ok_0.wf(),
{
    match call {
        GovCall::Initialize { .. } => lemma_invariant_kept_by(s, call),
        GovCall::SetVotingPower { .. } => lemma_invariant_kept_by(s, call),
        GovCall::UpdateConfig { .. } => lemma_invariant_kept_by(s, call),
        GovCall::Delegate { .. } => lemma_invariant_kept_by(s, call),
        GovCall::Undelegate { .. } => lemma_invariant_kept_by(s, call),
        GovCall::Propose { .. } => lemma_invariant_kept_by(s, call),
        GovCall::Vote { .. } => lemma_invariant_kept_by(s, call),
        GovCall::Queue { .. } => lemma_invariant_kept_by(s, call),
        GovCall::Execute { .. } => lemma_invariant_kept_by(s, call),
        GovCall::Cancel { .. } => lemma_invariant_kept_by(s, call),
        GovCall::TransferAdmin { .. } => lemma_invariant_kept_by(s, call),
    }
}

proof fn lemma_invariant_kept_by(s: GovState, call: GovCall)
    requires
        s.wf(),
        call_in_range(s, call),
        apply(s, call) is Ok,
    ensures
        apply(s, call)->Ok_0.wf(),
{
    let t = apply(s, call)->Ok_0;
    assert forall|id: u64| #![trigger t.proposals.contains_key(id)] t.proposals.contains_key(id) implies {
        let p = t.proposals[id];
        &&& p.id == id
        &&& 1 <= id <= t.proposal_counter
        &&& (p.status == ProposalStatus::Queued || p.status == ProposalStatus::Executed)
            ==> p.for_votes > p.against_votes
    } by {
        if s.proposals.contains_key(id) {
            assert(s.proposals.contains_key(id));
        }
        match call {
            GovCall::Initialize { .. } => {},
            GovCall::SetVotingPower { .. } => {},
            GovCall::UpdateConfig { .. } => {},
            GovCall::Delegate { .. } => {},
            GovCall::Undelegate { .. } => {},
            GovCall::Propose { .. } => {},
            GovCall::Vote { .. } => {},
            GovCall::Queue { .. } => {},
            GovCall::Execute { .. } => {},
            GovCall::Cancel { .. } => {},
            GovCall::TransferAdmin { .. } => {},
        }
    }
}

/// Across every call that is not rejected: no proposal disappears and each
/// evolves as `proposal_evolves` allows; a proposal that appears is active
/// with empty tallies and gets the id that follows the previous counter;
/// the proposal counter never decreases; and a recorded vote is never
/// changed or removed.
pub proof fn lemma_proposal_lifecycle(s: GovState, call: GovCall)
    requires
        s.wf(),
        call_in_range(s, call),
        apply(s, call) is Ok,
    ensures
        ({
            let t = apply(s, call)->Ok_0;
            &&& t.proposal_counter >= s.proposal_counter
            &&& forall|id: u64|
                #![trigger t.proposals.contains_key(id)]
                s.proposals.contains_key(id) ==> t.proposals.contains_key(id) && proposal_evolves(
                    s.proposals[id],
                    t.proposals[id],
                )
            &&& forall|id: u64|
                #![trigger t.proposals.contains_key(id)]
                t.proposals.contains_key(id) && !s.proposals.contains_key(id) ==> {
                    &&& id == s.proposal_counter + 1
                    &&& t.proposals[id].status == ProposalStatus::Active
                    &&& t.proposals[id].for_votes == 0
                    &&& t.proposals[id].against_votes == 0
                    &&& t.proposals[id].abstain_votes == 0
                }
            &&& forall|k: (u64, AccountId)|
                #![trigger t.votes.contains_key(k)]
                s.votes.contains_key(k) ==> t.votes.contains_key(k) && t.votes[k] == s.votes[k]
        }),
{
    let t = apply(s, call)->Ok_0;
    assert forall|id: u64| #![trigger t.proposals.contains_key(id)]
        s.proposals.contains_key(id) implies t.proposals.contains_key(id) && proposal_evolves(
            s.proposals[id],
            t.proposals[id],
        ) by {
        assert(s.proposals.contains_key(id));
        match call {
            GovCall::Propose { .. } => {
                assert(id != s.proposal_counter + 1);
            },
            _ => {},
        }
    }
    assert forall|id: u64| #![trigger t.proposals.contains_key(id)]
        t.proposals.contains_key(id) && !s.proposals.contains_key(id) implies {
            &&& id == s.proposal_counter + 1
            &&& t.proposals[id].status == ProposalStatus::Active
            &&& t.proposals[id].for_votes == 0
            &&& t.proposals[id].against_votes == 0
            &&& t.proposals[id].abstain_votes == 0
        } by {
        assert(t.proposals.contains_key(id));
        match call {
            GovCall::Initialize { .. } => {},
            GovCall::SetVotingPower { .. } => {},
            GovCall::UpdateConfig { .. } => {},
            GovCall::Delegate { .. } => {},
            GovCall::Undelegate { .. } => {},
            GovCall::Propose { .. } => {},
            GovCall::Vote { .. } => {},
            GovCall::Queue { .. } => {},
            GovCall::Execute { .. } => {},
            GovCall::Cancel { .. } => {},
            GovCall::TransferAdmin { .. } => {},
        }
    }
}

/// A voter who has voted on a proposal cannot vote on it again.
pub proof fn lemma_no_double_vote(
    s: GovState,
    voter: AccountId,
    proposal_id: u64,
    choice: VoteChoice,
    ledger: u32,
)
    requires
        s.has_voted(proposal_id, voter),
    ensures
        s.vote_step(voter, proposal_id, choice, ledger) is Err,
{
}

/// A successful vote adds exactly the voter's effective power to the chosen
/// tally, leaves the other tallies alone, and records the choice.
pub proof fn lemma_vote_counts_power_once(
    s: GovState,
    voter: AccountId,
    proposal_id: u64,
    choice: VoteChoice,
    ledger: u32,
)
    requires
        s.vote_step(voter, proposal_id, choice, ledger) is Ok,
        s.vote_in_range(voter, proposal_id, choice, ledger),
    ensures
        ({
            let (t, power) = s.vote_step(voter, proposal_id, choice, ledger)->Ok_0;
            let p = s.proposals[proposal_id];
            let q = t.proposals[proposal_id];
            &&& power == s.effective_power(voter)
            &&& GovState::tally_of(q, choice) == GovState::tally_of(p, choice) + power
            &&& forall|c: VoteChoice| c != choice ==> GovState::tally_of(q, c) == GovState::tally_of(p, c)
            &&& t.has_voted(proposal_id, voter) && t.votes[(proposal_id, voter)] == choice
        }),
{
    let (t, power) = s.vote_step(voter, proposal_id, choice, ledger)->Ok_0;
    let p = s.proposals[proposal_id];
    let q = t.proposals[proposal_id];
    assert forall|c: VoteChoice| c != choice implies GovState::tally_of(q, c) == GovState::tally_of(
        p,
        c,
    ) by {
        match c {
            VoteChoice::For => {},
            VoteChoice::Against => {},
            VoteChoice::Abstain => {},
        }
    }
}

/// Delegating adds the delegator's own power to the delegatee's effective
/// power and leaves every other account's effective power as it was (the
/// delegator keeps its own power).
pub proof fn lemma_delegate_adds_power(s: GovState, delegator: AccountId, delegatee: AccountId)
    requires
        s.delegate_step(delegator, delegatee) is Ok,
        s.delegate_in_range(delegator, delegatee),
    ensures
        ({
            let t = s.delegate_step(delegator, delegatee)->Ok_0.0;
            &&& t.effective_power(delegatee) == s.effective_power(delegatee) + s.own_power(delegator)
            &&& forall|a: AccountId| a != delegatee ==> t.effective_power(a) == s.effective_power(a)
            &&& t.delegate_target[delegator] == delegatee
        }),
{
}

/// Undelegating right after delegating gives every account back the
/// effective power it had and removes the delegation again, provided the
/// power already delegated to the delegatee was not negative (the result
/// of `undelegate` is never below zero).
pub proof fn lemma_undelegate_restores_power(s: GovState, delegator: AccountId, delegatee: AccountId)
    requires
        s.delegate_step(delegator, delegatee) is Ok,
        s.delegate_in_range(delegator, delegatee),
        s.delegated_to(delegatee) >= 0,
    ensures
        ({
            let t = s.delegate_step(delegator, delegatee)->Ok_0.0;
            let u = t.undelegate_step(delegator)->Ok_0.0;
            &&& t.undelegate_step(delegator) is Ok
            &&& t.undelegate_step(delegator)->Ok_0.1 == delegatee
            &&& forall|a: AccountId| u.effective_power(a) == s.effective_power(a)
            &&& u.delegate_target == s.delegate_target
            &&& u.voting_power == s.voting_power
            &&& u.proposals == s.proposals
            &&& u.votes == s.votes
        }),
{
    let t = s.delegate_step(delegator, delegatee)->Ok_0.0;
    let u = t.undelegate_step(delegator)->Ok_0.0;
    assert(u.delegate_target =~= s.delegate_target);
}

/// Delegated power is a snapshot: when the admin changes a delegator's own
/// power after it delegated, undelegating still takes back exactly the power
/// that was delegated, so the delegatee ends with what it had before the
/// delegation and no other delegation to it is lost (provided the power
/// already delegated to the delegatee was not negative).
pub proof fn lemma_undelegate_takes_back_delegated_amount(
    s: GovState,
    delegator: AccountId,
    delegatee: AccountId,
    new_power: i128,
)
    requires
        s.admin is Some,
        s.delegate_step(delegator, delegatee) is Ok,
        s.delegate_in_range(delegator, delegatee),
        s.delegated_to(delegatee) >= 0,
    ensures
        ({
            let t = s.delegate_step(delegator, delegatee)->Ok_0.0;
            let v = t.set_voting_power_step(delegator, new_power)->Ok_0.0;
            let u = v.undelegate_step(delegator)->Ok_0.0;
            &&& t.amount_delegated_by(delegator) == s.own_power(delegator)
            &&& t.set_voting_power_step(delegator, new_power) is Ok
            &&& v.undelegate_step(delegator) is Ok
            &&& u.delegated_to(delegatee) == s.delegated_to(delegatee)
            &&& forall|a: AccountId| a != delegator ==> u.effective_power(a) == s.effective_power(a)
            &&& u.own_power(delegator) == new_power
        }),
{
}

/// Every stored voting power, delegated amount and delegated total is
/// non-negative.
pub open spec fn powers_nonnegative(s: GovState) -> bool {
    &&& forall|a: AccountId| #[trigger] s.voting_power.contains_key(a) ==> s.voting_power[a] >= 0
    &&& forall|a: AccountId| #[trigger] s.delegated_amount.contains_key(a) ==> s.delegated_amount[a] >= 0
    &&& forall|a: AccountId| #[trigger] s.delegated_power.contains_key(a) ==> s.delegated_power[a] >= 0
}

/// Whether `call` gives an account a negative voting power.
pub open spec fn sets_negative_power(call: GovCall) -> bool {
    call matches GovCall::SetVotingPower { power, .. } && power < 0
}

/// The storage after `calls`, made in order on a fresh contract: a call that
/// is rejected, or on which the contract's arithmetic would overflow (the
/// contract aborts there), changes nothing.
pub open spec fn run(calls: Seq<GovCall>) -> GovState
    decreases calls.len(),
{
    if calls.len() == 0 {
        GovState::empty()
    } else {
        let s = run(calls.drop_last());
        let call = calls.last();
        if call_in_range(s, call) {
            match apply(s, call) {
                Ok(n) => n,
                Err(_) => s,
            }
        } else {
            s
        }
    }
}

/// No accepted call that sets no negative voting power makes a stored power
/// negative.
pub proof fn lemma_call_keeps_powers_nonnegative(s: GovState, call: GovCall)
    requires
        powers_nonnegative(s),
        !sets_negative_power(call),
        call_in_range(s, call),
        apply(s, call) is Ok,
    ensures
        powers_nonnegative(apply(s, call)->Ok_0),
{
    let t = apply(s, call)->Ok_0;
    match call {
        GovCall::Delegate { delegator, delegatee } => {
            assert forall|a: AccountId| #[trigger] t.delegated_power.contains_key(a) implies t.delegated_power[a] >= 0 by {
                if a != delegatee {
                    assert(s.delegated_power.contains_key(a));
                }
            }
            assert forall|a: AccountId| #[trigger] t.delegated_amount.contains_key(a) implies t.delegated_amount[a] >= 0 by {
                if a != delegator {
                    assert(s.delegated_amount.contains_key(a));
                }
            }
        },
        GovCall::Undelegate { delegator } => {
            let delegatee = s.delegate_target[delegator];
            assert forall|a: AccountId| #[trigger] t.delegated_power.contains_key(a) implies t.delegated_power[a] >= 0 by {
                if a != delegatee {
                    assert(s.delegated_power.contains_key(a));
                }
            }
            assert forall|a: AccountId| #[trigger] t.delegated_amount.contains_key(a) implies t.delegated_amount[a] >= 0 by {
                assert(s.delegated_amount.contains_key(a));
            }
        },
        GovCall::SetVotingPower { account, power } => {
            assert forall|a: AccountId| #[trigger] t.voting_power.contains_key(a) implies t.voting_power[a] >= 0 by {
                if a != account {
                    assert(s.voting_power.contains_key(a));
                }
            }
        },
        _ => {},
    }
}

/// As long as no call sets a negative voting power, every stored power stays
/// non-negative.
pub proof fn lemma_powers_stay_nonnegative(calls: Seq<GovCall>)
    requires
        forall|i: int| 0 <= i < calls.len() ==> !sets_negative_power(#[trigger] calls[i]),
    ensures
        powers_nonnegative(run(calls)),
    decreases calls.len(),
{
    if calls.len() > 0 {
        let rest = calls.drop_last();
        assert forall|i: int| 0 <= i < rest.len() implies !sets_negative_power(#[trigger] rest[i]) by {
            assert(rest[i] == calls[i]);
        }
        lemma_powers_stay_nonnegative(rest);
        let s = run(rest);
        let call = calls.last();
        assert(!sets_negative_power(calls[calls.len() - 1]));
        if call_in_range(s, call) && apply(s, call) is Ok {
            lemma_call_keeps_powers_nonnegative(s, call);
        }
    }
}

/// On a contract where no voting power set so far was negative, undelegating
/// right after delegating gives every account back the effective power it
/// had and removes the delegation again.
pub proof fn lemma_undelegate_undoes_delegate(
    calls: Seq<GovCall>,
    delegator: AccountId,
    delegatee: AccountId,
)
    requires
        forall|i: int| 0 <= i < calls.len() ==> !sets_negative_power(#[trigger] calls[i]),
        run(calls).delegate_step(delegator, delegatee) is Ok,
        run(calls).delegate_in_range(delegator, delegatee),
    ensures
        ({
            let s = run(calls);
            let t = s.delegate_step(delegator, delegatee)->Ok_0.0;
            let u = t.undelegate_step(delegator)->Ok_0.0;
            &&& t.undelegate_in_range(delegator)
            &&& t.undelegate_step(delegator) is Ok
            &&& t.undelegate_step(delegator)->Ok_0.1 == delegatee
            &&& forall|a: AccountId| u.effective_power(a) == s.effective_power(a)
            &&& u.delegate_target == s.delegate_target
        }),
{
    lemma_powers_stay_nonnegative(calls);
    let s = run(calls);
    if s.delegated_power.contains_key(delegatee) {
        assert(s.delegated_power[delegatee] >= 0);
    }
    lemma_undelegate_restores_power(s, delegator, delegatee);
}

/// A proposal can only be queued once its voting period is over, with more
/// votes for than against and a total of at least the quorum.
pub proof fn lemma_queue_requires_majority_and_quorum(s: GovState, proposal_id: u64, ledger: u32)
    requires
        s.queue_step(proposal_id, ledger) is Ok,
    ensures
        ({
            let p = s.proposals[proposal_id];
            &&& ledger > p.vote_end_ledger
            &&& p.for_votes > p.against_votes
            &&& p.for_votes + p.against_votes + p.abstain_votes >= s.config->Some_0.quorum_votes
        }),
{
}

/// A proposal can only be executed when it is queued and its time-lock has expired.
pub proof fn lemma_execute_requires_timelock(s: GovState, proposal_id: u64, ledger: u32)
    requires
        s.execute_step(proposal_id, ledger) is Ok,
    ensures
        s.proposals[proposal_id].status == ProposalStatus::Queued,
        ledger >= s.proposals[proposal_id].execute_after_ledger,
{
}

/// Anyone may queue a proposal once its voting period is over if it is
/// active, has more votes for than against, and reached the quorum.
pub proof fn lemma_passed_proposal_can_be_queued(s: GovState, proposal_id: u64, ledger: u32)
    requires
        s.config is Some,
        s.proposals.contains_key(proposal_id),
        s.proposals[proposal_id].status == ProposalStatus::Active,
        ledger > s.proposals[proposal_id].vote_end_ledger,
        s.proposals[proposal_id].for_votes > s.proposals[proposal_id].against_votes,
        s.proposals[proposal_id].for_votes + s.proposals[proposal_id].against_votes
            + s.proposals[proposal_id].abstain_votes >= s.config->Some_0.quorum_votes,
    ensures
        s.queue_step(proposal_id, ledger) is Ok,
        s.queue_step(proposal_id, ledger)->Ok_0.0.proposals[proposal_id].status
            == ProposalStatus::Queued,
{
}

/// Anyone may execute a queued proposal once its time-lock has expired.
pub proof fn lemma_queued_proposal_can_be_executed(s: GovState, proposal_id: u64, ledger: u32)
    requires
        s.proposals.contains_key(proposal_id),
        s.proposals[proposal_id].status == ProposalStatus::Queued,
        ledger >= s.proposals[proposal_id].execute_after_ledger,
    ensures
        s.execute_step(proposal_id, ledger) is Ok,
        s.execute_step(proposal_id, ledger)->Ok_0.0.proposals[proposal_id].status
            == ProposalStatus::Executed,
{
}

/// The proposer or the admin can cancel a proposal that is neither executed
/// nor cancelled; anyone else is refused.
pub proof fn lemma_who_may_cancel(s: GovState, caller: AccountId, proposal_id: u64)
    requires
        s.admin is Some,
        s.proposals.contains_key(proposal_id),
        s.proposals[proposal_id].status != ProposalStatus::Executed,
        s.proposals[proposal_id].status != ProposalStatus::Cancelled,
    ensures
        (caller == s.proposals[proposal_id].proposer || caller == s.admin->Some_0) ==> s.cancel_step(
            caller,
            proposal_id,
        ) is Ok,
        (caller != s.proposals[proposal_id].proposer && caller != s.admin->Some_0) ==> s.cancel_step(
            caller,
            proposal_id,
        ) == Err::<(GovState, ()), GovError>(GovError::Unauthorized),
{
}


/// The proposal threshold is measured against the proposer's effective
/// voting power, its own plus what was delegated to it: on an initialised
/// contract a proposal is created exactly when that sum reaches the
/// threshold.  The new proposal takes the next id, belongs to the proposer,
/// carries the given payload and description, is active with empty tallies
/// and stays open until `ledger` plus the voting period.
pub proof fn lemma_propose_threshold_counts_delegated_power(
    s: GovState,
    proposer: AccountId,
    payload: Vec<u8>,
    description: Vec<u8>,
    ledger: u32,
)
    requires
        s.config is Some,
        s.propose_in_range(proposer, ledger),
    ensures
        ({
            let c = s.config->Some_0;
            let power = stored_or_zero(s.voting_power, proposer) + stored_or_zero(
                s.delegated_power,
                proposer,
            );
            let r = s.propose_step(proposer, payload, description, ledger);
            &&& r is Ok <==> power >= c.proposal_threshold
            &&& r is Err ==> r == Err::<(GovState, u64), GovError>(GovError::InsufficientVotingPower)
            &&& r is Ok ==> {
                let (t, id) = r->Ok_0;
                let p = t.proposals[id];
                &&& id == s.proposal_counter + 1
                &&& t.proposal_counter == id
                &&& t.proposals.contains_key(id)
                &&& p.id == id
                &&& p.proposer == proposer
                &&& p.payload == payload
                &&& p.description == description
                &&& p.status == ProposalStatus::Active
                &&& p.vote_end_ledger == ledger + c.voting_period_ledgers
                &&& p.for_votes == 0 && p.against_votes == 0 && p.abstain_votes == 0
            }
        }),
{
}

/// Queueing starts the time-lock at the ledger of the queue call, however
/// long after the end of voting it comes: a successful queue at `ledger`
/// returns, and stores as the proposal's earliest execution ledger,
/// `ledger` plus the time-lock, and execution is refused before that ledger.
pub proof fn lemma_queue_starts_timelock(s: GovState, proposal_id: u64, ledger: u32, later: u32)
    requires
        s.queue_step(proposal_id, ledger) is Ok,
        s.queue_in_range(proposal_id, ledger),
    ensures
        ({
            let c = s.config->Some_0;
            let (t, after) = s.queue_step(proposal_id, ledger)->Ok_0;
            &&& after == ledger + c.timelock_ledgers
            &&& t.proposals[proposal_id].execute_after_ledger == after
            &&& t.proposals[proposal_id].status == ProposalStatus::Queued
            &&& later < after ==> t.execute_step(proposal_id, later) == Err::<(GovState, ()), GovError>(
                GovError::TimelockNotExpired,
            )
            &&& later >= after ==> t.execute_step(proposal_id, later) is Ok
        }),
{
}

} // verus!
