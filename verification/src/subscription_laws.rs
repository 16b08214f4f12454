//! Properties of the subscription contract that span its entry points.
use crate::account::AccountId;
use crate::subscription::{
    status_consistent, SubError, SubState, Subscription, SubscriptionStatus, MAX_RETRIES,
};
use vstd::prelude::*;

verus! {

/// One call of a state-changing entry point of the subscription contract,
/// with its arguments (the current ledger where the call reads it, and the
/// outcome of the token transfer where it makes one).
pub enum SubCall {
    Initialize { admin: AccountId },
    CreatePlan { merchant: AccountId, token: AccountId, amount: i128, interval_ledgers: u32 },
    DeactivatePlan { plan_id: u64 },
    Subscribe { subscriber: AccountId, plan_id: u64, ledger: u32, charged: bool },
    Cancel { subscriber: AccountId, sub_id: u64 },
    ExecutePayment { sub_id: u64, ledger: u32, charged: bool },
    Pause,
    Unpause,
    TransferAdmin { new_admin: AccountId },
}

/// The state after `call`, or the error with which it is rejected.
pub open spec fn sub_apply(s: SubState, call: SubCall) -> Result<SubState, SubError> {
    match call {
        SubCall::Initialize { admin } => match s.initialize_step(admin) {
            Ok((n, _)) => Ok(n),
            Err(e) => Err(e),
        },
        SubCall::CreatePlan { merchant, token, amount, interval_ledgers } => match s.create_plan_step(
            merchant,
            token,
            amount,
            interval_ledgers,
        ) {
            Ok((n, _)) => Ok(n),
            Err(e) => Err(e),
        },
        SubCall::DeactivatePlan { plan_id } => match s.deactivate_plan_step(plan_id) {
            Ok((n, _)) => Ok(n),
            Err(e) => Err(e),
        },
        SubCall::Subscribe { subscriber, plan_id, ledger, charged } => match s.subscribe_step(
            subscriber,
            plan_id,
            ledger,
            charged,
        ) {
            Ok((n, _)) => Ok(n),
            Err(e) => Err(e),
        },
        SubCall::Cancel { subscriber, sub_id } => match s.cancel_step(subscriber, sub_id) {
            Ok((n, _)) => Ok(n),
            Err(e) => Err(e),
        },
        SubCall::ExecutePayment { sub_id, ledger, charged } => match s.execute_payment_step(
            sub_id,
            ledger,
            charged,
        ) {
            Ok((n, _)) => Ok(n),
            Err(e) => Err(e),
        },
        SubCall::Pause => match s.set_paused_step(true) {
            Ok((n, _)) => Ok(n),
            Err(e) => Err(e),
        },
        SubCall::Unpause => match s.set_paused_step(false) {
            Ok((n, _)) => Ok(n),
            Err(e) => Err(e),
        },
        SubCall::TransferAdmin { new_admin } => match s.transfer_admin_step(new_admin) {
            Ok((n, _)) => Ok(n),
            Err(e) => Err(e),
        },
    }
}

/// The arithmetic that `call` does stays within its integer types (the
/// inputs on which the contract would overflow are left out).
pub open spec fn sub_call_in_range(s: SubState, call: SubCall) -> bool {
    match call {
        SubCall::CreatePlan { amount, interval_ledgers, .. } => s.create_plan_in_range(
            amount,
            interval_ledgers,
        ),
        SubCall::Subscribe { plan_id, ledger, .. } => s.subscribe_in_range(plan_id, ledger),
        SubCall::ExecutePayment { sub_id, ledger, charged } => s.execute_payment_in_range(
            sub_id,
            ledger,
            charged,
        ),
        _ => true,
    }
}

/// How one subscription may differ across a call: its plan and subscriber
/// are fixed, its count of payments never decreases, and a cancelled
/// subscription does not change at all.
pub open spec fn subscription_evolves(a: Subscription, b: Subscription) -> bool {
    &&& b.plan_id == a.plan_id && b.subscriber == a.subscriber
    &&& b.payments_made >= a.payments_made
    &&& a.status == SubscriptionStatus::Cancelled ==> b == a
}

/// Every call that is not rejected keeps the invariant: in particular every
/// subscription's status agrees with its failure count (`status_consistent`).
pub proof fn lemma_sub_calls_keep_invariant(s: SubState, call: SubCall)
    requires
        s.wf(),
        sub_call_in_range(s, call),
        sub_apply(s, call) is Ok,
    ensures
        sub_apply(s, call)->Ok_0.wf(),
{
    let t = sub_apply(s, call)->Ok_0;
    assert forall|id: u64| #![trigger t.plans.contains_key(id)] t.plans.contains_key(id) implies 1
        <= id <= t.plan_counter by {
        if s.plans.contains_key(id) {
            assert(s.plans.contains_key(id));
        }
        match call {
            SubCall::Initialize { .. } => {},
            SubCall::CreatePlan { .. } => {},
            SubCall::DeactivatePlan { .. } => {},
            SubCall::Subscribe { .. } => {},
            SubCall::Cancel { .. } => {},
            SubCall::ExecutePayment { .. } => {},
            SubCall::Pause => {},
            SubCall::Unpause => {},
            SubCall::TransferAdmin { .. } => {},
        }
    }
    assert forall|id: u64| #![trigger t.subscriptions.contains_key(id)]
        t.subscriptions.contains_key(id) implies {
        let sub = t.subscriptions[id];
        &&& 1 <= id <= t.sub_counter
        &&& t.plans.contains_key(sub.plan_id)
        &&& status_consistent(sub)
    } by {
        if s.subscriptions.contains_key(id) {
            assert(s.subscriptions.contains_key(id));
            assert(s.plans.contains_key(s.subscriptions[id].plan_id));
        }
        match call {
            SubCall::Initialize { .. } => {},
            SubCall::CreatePlan { .. } => {},
            SubCall::DeactivatePlan { .. } => {},
            SubCall::Subscribe { .. } => {},
            SubCall::Cancel { .. } => {},
            SubCall::ExecutePayment { .. } => {},
            SubCall::Pause => {},
            SubCall::Unpause => {},
            SubCall::TransferAdmin { .. } => {},
        }
    }
}

/// Across every call that is not rejected: no plan or subscription
/// disappears; a plan keeps its merchant, token, amount and interval and,
/// once deactivated, stays deactivated; each subscription evolves as
/// `subscription_evolves` allows; and the plan and subscription counters never decrease.
pub proof fn lemma_sub_lifecycle(s: SubState, call: SubCall)
    requires
        s.wf(),
        sub_call_in_range(s, call),
        sub_apply(s, call) is Ok,
    ensures
        ({
            let t = sub_apply(s, call)->Ok_0;
            &&& t.plan_counter >= s.plan_counter
            &&& t.sub_counter >= s.sub_counter
            &&& forall|id: u64|
                #![trigger t.plans.contains_key(id)]
                s.plans.contains_key(id) ==> {
                    let a = s.plans[id];
                    let b = t.plans[id];
                    &&& t.plans.contains_key(id)
                    &&& b.merchant == a.merchant && b.token == a.token && b.amount == a.amount
                        && b.interval_ledgers == a.interval_ledgers
                    &&& !a.active ==> !b.active
                }
            &&& forall|id: u64|
                #![trigger t.subscriptions.contains_key(id)]
                s.subscriptions.contains_key(id) ==> t.subscriptions.contains_key(id)
                    && subscription_evolves(s.subscriptions[id], t.subscriptions[id])
        }),
{
    let t = sub_apply(s, call)->Ok_0;
    assert forall|id: u64| #![trigger t.plans.contains_key(id)] s.plans.contains_key(id) implies {
        let a = s.plans[id];
        let b = t.plans[id];
        &&& t.plans.contains_key(id)
        &&& b.merchant == a.merchant && b.token == a.token && b.amount == a.amount
            && b.interval_ledgers == a.interval_ledgers
        &&& !a.active ==> !b.active
    } by {
        assert(s.plans.contains_key(id));
        match call {
            SubCall::Initialize { .. } => {},
            SubCall::CreatePlan { .. } => {},
            SubCall::DeactivatePlan { .. } => {},
            SubCall::Subscribe { .. } => {},
            SubCall::Cancel { .. } => {},
            SubCall::ExecutePayment { .. } => {},
            SubCall::Pause => {},
            SubCall::Unpause => {},
            SubCall::TransferAdmin { .. } => {},
        }
    }
    assert forall|id: u64| #![trigger t.subscriptions.contains_key(id)]
        s.subscriptions.contains_key(id) implies t.subscriptions.contains_key(id)
        && subscription_evolves(s.subscriptions[id], t.subscriptions[id]) by {
        assert(s.subscriptions.contains_key(id));
        match call {
            SubCall::Initialize { .. } => {},
            SubCall::CreatePlan { .. } => {},
            SubCall::DeactivatePlan { .. } => {},
            SubCall::Subscribe { .. } => {},
            SubCall::Cancel { .. } => {},
            SubCall::ExecutePayment { .. } => {},
            SubCall::Pause => {},
            SubCall::Unpause => {},
            SubCall::TransferAdmin { .. } => {},
        }
    }
}

/// A subscription whose failure count has reached `MAX_RETRIES` is cancelled.
pub proof fn lemma_max_failures_means_cancelled(s: SubState, sub_id: u64)
    requires
        s.wf(),
        s.subscriptions.contains_key(sub_id),
        s.subscriptions[sub_id].failure_count >= MAX_RETRIES,
    ensures
        s.subscriptions[sub_id].status == SubscriptionStatus::Cancelled,
{
    assert(s.subscriptions.contains_key(sub_id));
}

/// `MAX_RETRIES` failed charges in a row, each made when due, cancel an
/// active subscription; the first `MAX_RETRIES - 1` of them leave it
/// `PaymentFailed` with the next retry one interval later.
pub proof fn lemma_consecutive_failures_cancel(
    s: SubState,
    sub_id: u64,
    ledger1: u32,
    ledger2: u32,
    ledger3: u32,
)
    requires
        s.wf(),
        s.subscriptions.contains_key(sub_id),
        s.subscriptions[sub_id].status == SubscriptionStatus::Active,
        s.payment_refusal(sub_id, ledger1) is None,
        s.execute_payment_in_range(sub_id, ledger1, false),
        ledger2 >= ledger1 + s.plans[s.subscriptions[sub_id].plan_id].interval_ledgers,
        ledger3 >= ledger2 + s.plans[s.subscriptions[sub_id].plan_id].interval_ledgers,
        ledger2 + s.plans[s.subscriptions[sub_id].plan_id].interval_ledgers <= u32::MAX,
        !s.paused,
    ensures
        ({
            let s1 = s.execute_payment_step(sub_id, ledger1, false)->Ok_0.0;
            let s2 = s1.execute_payment_step(sub_id, ledger2, false)->Ok_0.0;
            let r3 = s2.execute_payment_step(sub_id, ledger3, false);
            &&& s1.subscriptions[sub_id].status == SubscriptionStatus::PaymentFailed
            &&& s1.subscriptions[sub_id].failure_count == 1
            &&& s1.execute_payment_step(sub_id, ledger2, false) is Ok
            &&& s2.subscriptions[sub_id].status == SubscriptionStatus::PaymentFailed
            &&& s2.subscriptions[sub_id].failure_count == 2
            &&& r3 is Ok
            &&& r3->Ok_0.0.subscriptions[sub_id].status == SubscriptionStatus::Cancelled
            &&& r3->Ok_0.0.subscriptions[sub_id].failure_count == MAX_RETRIES
        }),
{
    assert(s.subscriptions.contains_key(sub_id));
}

/// A successful charge clears the failure count and makes the subscription
/// active again, with one more payment made and the next one due one
/// interval after the current ledger.
pub proof fn lemma_success_resets_failures(s: SubState, sub_id: u64, ledger: u32)
    requires
        s.execute_payment_step(sub_id, ledger, true) is Ok,
        s.execute_payment_in_range(sub_id, ledger, true),
    ensures
        ({
            let before = s.subscriptions[sub_id];
            let after = s.execute_payment_step(sub_id, ledger, true)->Ok_0.0.subscriptions[sub_id];
            &&& after.failure_count == 0
            &&& after.status == SubscriptionStatus::Active
            &&& after.payments_made == before.payments_made + 1
            &&& after.next_payment_ledger == ledger + s.plans[before.plan_id].interval_ledgers
        }),
{
}

/// While the contract is paused, subscribing and paying are refused with
/// `ContractPaused`, and no transfer is asked for.
pub proof fn lemma_pause_blocks(
    s: SubState,
    subscriber: AccountId,
    plan_id: u64,
    sub_id: u64,
    ledger: u32,
    charged: bool,
)
    requires
        s.paused,
    ensures
        s.subscribe_refusal(plan_id) == Some(SubError::ContractPaused),
        s.subscribe_step(subscriber, plan_id, ledger, charged) == Err::<(SubState, u64), SubError>(
            SubError::ContractPaused,
        ),
        s.payment_refusal(sub_id, ledger) == Some(SubError::ContractPaused),
        s.execute_payment_step(sub_id, ledger, charged) == Err::<(SubState, bool), SubError>(
            SubError::ContractPaused,
        ),
{
}

/// The subscriber may cancel a subscription that is not cancelled yet at any
/// time, paused or not: the call succeeds, cancels it and changes nothing else.
pub proof fn lemma_subscriber_may_always_cancel(s: SubState, sub_id: u64)
    requires
        s.subscriptions.contains_key(sub_id),
        s.subscriptions[sub_id].status != SubscriptionStatus::Cancelled,
    ensures
        ({
            let sub = s.subscriptions[sub_id];
            let r = s.cancel_step(sub.subscriber, sub_id);
            &&& r is Ok
            &&& r->Ok_0.0.subscriptions == s.subscriptions.insert(
                sub_id,
                Subscription { status: SubscriptionStatus::Cancelled, ..sub },
            )
            &&& r->Ok_0.0.plans == s.plans
            &&& r->Ok_0.0.paused == s.paused
        }),
{
}

/// Anyone can have a payment made once it is due: an unpaused contract
/// refuses no due payment of a subscription that is not cancelled.
pub proof fn lemma_due_payment_is_made(s: SubState, sub_id: u64, ledger: u32)
    requires
        s.wf(),
        !s.paused,
        s.subscriptions.contains_key(sub_id),
        s.subscriptions[sub_id].status != SubscriptionStatus::Cancelled,
        ledger >= s.subscriptions[sub_id].next_payment_ledger,
    ensures
        s.payment_refusal(sub_id, ledger) is None,
{
    assert(s.subscriptions.contains_key(sub_id));
}

/// Deactivating a plan stops new subscriptions to it but leaves existing
/// subscriptions paying as before: whether a payment is refused, and the
/// transfer it asks for, do not change.
pub proof fn lemma_deactivation_keeps_payments(s: SubState, plan_id: u64, sub_id: u64, ledger: u32)
    requires
        s.deactivate_plan_step(plan_id) is Ok,
    ensures
        ({
            let t = s.deactivate_plan_step(plan_id)->Ok_0.0;
            &&& t.subscribe_refusal(plan_id) == Some(SubError::PlanInactive) || t.paused
            &&& t.payment_refusal(sub_id, ledger) == s.payment_refusal(sub_id, ledger)
            &&& s.payment_refusal(sub_id, ledger) is None ==> SubState::plan_charge(
                t.plans[t.subscriptions[sub_id].plan_id],
                t.subscriptions[sub_id].subscriber,
            ) == SubState::plan_charge(
                s.plans[s.subscriptions[sub_id].plan_id],
                s.subscriptions[sub_id].subscriber,
            )
        }),
{
}


/// A failed charge counts one more failure and changes nothing else of the
/// subscription but its status and due ledger.  Unless it is the
/// `MAX_RETRIES`-th failure in a row (which cancels the subscription, keeping
/// its due ledger), it marks the subscription `PaymentFailed` and moves the
/// next attempt to one interval after the ledger of the failed charge,
/// whatever the failure count was before: so with a non-zero interval a
/// retry at that same ledger is refused as not due.
pub proof fn lemma_failed_charge_opens_retry_window(s: SubState, sub_id: u64, ledger: u32)
    requires
        s.execute_payment_step(sub_id, ledger, false) is Ok,
        s.execute_payment_in_range(sub_id, ledger, false),
    ensures
        ({
            let before = s.subscriptions[sub_id];
            let interval = s.plans[before.plan_id].interval_ledgers;
            let t = s.execute_payment_step(sub_id, ledger, false)->Ok_0.0;
            let after = t.subscriptions[sub_id];
            &&& s.execute_payment_step(sub_id, ledger, false)->Ok_0.1 == false
            &&& after.failure_count == before.failure_count + 1
            &&& after.payments_made == before.payments_made
            &&& after.plan_id == before.plan_id
            &&& after.subscriber == before.subscriber
            &&& before.failure_count + 1 < MAX_RETRIES ==> {
                &&& after.status == SubscriptionStatus::PaymentFailed
                &&& after.next_payment_ledger == ledger + interval
                &&& interval > 0 ==> t.execute_payment_step(sub_id, ledger, false)
                    == Err::<(SubState, bool), SubError>(SubError::PaymentNotDue)
            }
            &&& before.failure_count + 1 >= MAX_RETRIES ==> {
                &&& after.status == SubscriptionStatus::Cancelled
                &&& after.next_payment_ledger == before.next_payment_ledger
            }
        }),
{
}

} // verus!
