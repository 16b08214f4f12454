//! Recurring payment subscriptions between subscribers and merchants.
//!
//! A merchant's plan fixes the token, the amount and the interval.  Subscribing
//! charges the first payment at once; afterwards anyone may trigger a payment
//! once it is due.  A failed charge marks the subscription `PaymentFailed` and
//! opens a retry window; after `MAX_RETRIES` consecutive failures the
//! subscription is cancelled.  The subscriber may cancel at any time.
//!
//! Token transfers are carried out by the token contract: [`SubscriptionPayments::subscribe_charge`]
//! and [`SubscriptionPayments::payment_charge`] say which transfer a call asks
//! for, and [`SubscriptionPayments::subscribe`] and
//! [`SubscriptionPayments::execute_payment`] take whether it went through.
use crate::account::AccountId;
use std::collections::HashMap;
use vstd::prelude::*;

verus! {

broadcast use vstd::std_specs::hash::group_hash_axioms;

/// Maximum consecutive payment failures before auto-cancellation.
pub const MAX_RETRIES: u32 = 3;

/// A recurring payment plan created by a merchant.
#[derive(Clone, Copy, PartialEq, Eq, Structural, Debug)]
pub struct Plan {
    /// Merchant / recipient of payments.
    pub merchant: AccountId,
    /// Token used for payments.
    pub token: AccountId,
    /// Amount charged per interval (in token base units).
    pub amount: i128,
    /// Payment interval in ledgers.
    pub interval_ledgers: u32,
    /// Whether new subscriptions can be created against this plan.
    pub active: bool,
}

/// Subscription state machine.
#[derive(Clone, Copy, PartialEq, Eq, Structural, Debug)]
pub enum SubscriptionStatus {
    Active,
    Cancelled,
    PaymentFailed,
}

/// A subscriber's subscription to a plan.
#[derive(Clone, Copy, PartialEq, Eq, Structural, Debug)]
pub struct Subscription {
    pub plan_id: u64,
    pub subscriber: AccountId,
    /// Ledger at which the next payment is due.
    pub next_payment_ledger: u32,
    pub status: SubscriptionStatus,
    /// Consecutive payment failures.
    pub failure_count: u32,
    /// Total successful payments executed.
    pub payments_made: u32,
}

/// A token transfer that the contract asks the token contract to make
/// on its behalf (`from` must have approved the contract as spender).
#[derive(Clone, Copy, PartialEq, Eq, Structural, Debug)]
pub struct Charge {
    pub token: AccountId,
    pub from: AccountId,
    pub to: AccountId,
    pub amount: i128,
}

/// Reasons for which the subscription contract rejects a call.
#[derive(Clone, Copy, PartialEq, Eq, Structural, Debug)]
pub enum SubError {
    AlreadyInitialized,
    NotInitialized,
    Unauthorized,
    ContractPaused,
    PlanNotFound,
    PlanInactive,
    SubscriptionNotFound,
    SubscriptionNotActive,
    PaymentNotDue,
    InvalidAmount,
    InvalidInterval,
}

impl SubError {
    /// The contract error code of this error (1 to 11, in declaration order).
    pub open spec fn spec_code(self) -> u32 {
        match self {
            SubError::AlreadyInitialized => 1,
            SubError::NotInitialized => 2,
            SubError::Unauthorized => 3,
            SubError::ContractPaused => 4,
            SubError::PlanNotFound => 5,
            SubError::PlanInactive => 6,
            SubError::SubscriptionNotFound => 7,
            SubError::SubscriptionNotActive => 8,
            SubError::PaymentNotDue => 9,
            SubError::InvalidAmount => 10,
            SubError::InvalidInterval => 11,
        }
    }

    /// The contract error code of this error.
    pub fn code(&self) -> (c: u32)
        ensures
            c == self.spec_code(),
    {
        match self {
            SubError::AlreadyInitialized => 1,
            SubError::NotInitialized => 2,
            SubError::Unauthorized => 3,
            SubError::ContractPaused => 4,
            SubError::PlanNotFound => 5,
            SubError::PlanInactive => 6,
            SubError::SubscriptionNotFound => 7,
            SubError::SubscriptionNotActive => 8,
            SubError::PaymentNotDue => 9,
            SubError::InvalidAmount => 10,
            SubError::InvalidInterval => 11,
        }
    }
}

/// The abstract content of the subscription contract's storage.
pub struct SubState {
    pub admin: Option<AccountId>,
    pub paused: bool,
    /// Id of the most recently created plan (0 before the first).
    pub plan_counter: u64,
    /// Id of the most recently created subscription (0 before the first).
    pub sub_counter: u64,
    pub plans: Map<u64, Plan>,
    pub subscriptions: Map<u64, Subscription>,
}

/// How a call relates the state before and after it and its result to the
/// step that specifies it: on success the step's state and value, on
/// rejection the step's error and no change at all.
pub open spec fn sub_outcome<R>(
    before: SubState,
    after: SubState,
    result: Result<R, SubError>,
    step: Result<(SubState, R), SubError>,
) -> bool {
    match step {
        Ok((next, value)) => after == next && result == Ok::<R, SubError>(value),
        Err(e) => after == before && result == Err::<R, SubError>(e),
    }
}

/// The relation between a subscription's status and its failure count:
/// an active subscription has no pending failure, a failed one has between
/// one and `MAX_RETRIES - 1`, and no subscription ever has more than `MAX_RETRIES`.
pub open spec fn status_consistent(sub: Subscription) -> bool {
    &&& sub.failure_count <= MAX_RETRIES
    &&& sub.status == SubscriptionStatus::Active ==> sub.failure_count == 0
    &&& sub.status == SubscriptionStatus::PaymentFailed ==> 1 <= sub.failure_count < MAX_RETRIES
}

impl SubState {
    /// The invariant that every reachable state satisfies.
    pub open spec fn wf(self) -> bool {
        &&& self.admin is None ==> !self.paused && self.plan_counter == 0 && self.sub_counter == 0
        &&& forall|id: u64|
            #![trigger self.plans.contains_key(id)]
            self.plans.contains_key(id) ==> 1 <= id <= self.plan_counter
        &&& forall|id: u64|
            #![trigger self.subscriptions.contains_key(id)]
            self.subscriptions.contains_key(id) ==> {
                let sub = self.subscriptions[id];
                &&& 1 <= id <= self.sub_counter
                &&& self.plans.contains_key(sub.plan_id)
                &&& status_consistent(sub)
            }
    }

    /// A state with nothing stored: the contract before `initialize`.
    pub open spec fn empty() -> SubState {
        SubState {
            admin: None,
            paused: false,
            plan_counter: 0,
            sub_counter: 0,
            plans: Map::empty(),
            subscriptions: Map::empty(),
        }
    }

    pub open spec fn initialize_step(self, admin: AccountId) -> Result<(SubState, ()), SubError> {
        if self.admin is Some {
            Err(SubError::AlreadyInitialized)
        } else {
            Ok(
                (
                    SubState {
                        admin: Some(admin),
                        paused: false,
                        plan_counter: 0,
                        sub_counter: 0,
                        ..self
                    },
                    (),
                ),
            )
        }
    }

    /// A new active plan gets the next plan id; the value is its id.
    pub open spec fn create_plan_step(
        self,
        merchant: AccountId,
        token: AccountId,
        amount: i128,
        interval_ledgers: u32,
    ) -> Result<(SubState, u64), SubError> {
        if self.admin is None {
            Err(SubError::NotInitialized)
        } else if amount <= 0 {
            Err(SubError::InvalidAmount)
        } else if interval_ledgers == 0 {
            Err(SubError::InvalidInterval)
        } else {
            let id = (self.plan_counter + 1) as u64;
            let plan = Plan { merchant, token, amount, interval_ledgers, active: true };
            Ok((SubState { plans: self.plans.insert(id, plan), plan_counter: id, ..self }, id))
        }
    }

    /// The plan counter can be incremented when a plan is about to be created.
    pub open spec fn create_plan_in_range(self, amount: i128, interval_ledgers: u32) -> bool {
        self.admin is Some && amount > 0 && interval_ledgers > 0 ==> self.plan_counter < u64::MAX
    }

    pub open spec fn deactivate_plan_step(self, plan_id: u64) -> Result<(SubState, ()), SubError> {
        if self.admin is None {
            Err(SubError::NotInitialized)
        } else if !self.plans.contains_key(plan_id) {
            Err(SubError::PlanNotFound)
        } else {
            Ok(
                (
                    SubState {
                        plans: self.plans.insert(plan_id, Plan { active: false, ..self.plans[plan_id] }),
                        ..self
                    },
                    (),
                ),
            )
        }
    }

    /// Why a subscription to `plan_id` would be refused before any payment, if it would.
    pub open spec fn subscribe_refusal(self, plan_id: u64) -> Option<SubError> {
        if self.paused {
            Some(SubError::ContractPaused)
        } else if !self.plans.contains_key(plan_id) {
            Some(SubError::PlanNotFound)
        } else if !self.plans[plan_id].active {
            Some(SubError::PlanInactive)
        } else {
            None
        }
    }

    /// The transfer of the plan's amount from `from` to the plan's merchant.
    pub open spec fn plan_charge(plan: Plan, from: AccountId) -> Charge {
        Charge { token: plan.token, from, to: plan.merchant, amount: plan.amount }
    }

    /// A new subscription records the outcome of its first charge: active
    /// with one payment made, or failed with one failure; the next payment
    /// is due one interval later.  The value is the subscription's id.
    pub open spec fn subscribe_step(
        self,
        subscriber: AccountId,
        plan_id: u64,
        current_ledger: u32,
        charged: bool,
    ) -> Result<(SubState, u64), SubError> {
        match self.subscribe_refusal(plan_id) {
            Some(e) => Err(e),
            None => {
                let plan = self.plans[plan_id];
                let id = (self.sub_counter + 1) as u64;
                let sub = Subscription {
                    plan_id,
                    subscriber,
                    next_payment_ledger: (current_ledger + plan.interval_ledgers) as u32,
                    status: if charged {
                        SubscriptionStatus::Active
                    } else {
                        SubscriptionStatus::PaymentFailed
                    },
                    failure_count: if charged {
                        0
                    } else {
                        1
                    },
                    payments_made: if charged {
                        1
                    } else {
                        0
                    },
                };
                Ok(
                    (
                        SubState {
                            subscriptions: self.subscriptions.insert(id, sub),
                            sub_counter: id,
                            ..self
                        },
                        id,
                    ),
                )
            },
        }
    }

    /// The arithmetic done by `subscribe` stays within its integer types.
    pub open spec fn subscribe_in_range(self, plan_id: u64, current_ledger: u32) -> bool {
        self.subscribe_refusal(plan_id) is None ==> {
            &&& self.sub_counter < u64::MAX
            &&& current_ledger + self.plans[plan_id].interval_ledgers <= u32::MAX
        }
    }

    /// Only the subscriber may cancel a subscription that is not cancelled yet;
    /// it may do so at any time, also while the contract is paused.
    pub open spec fn cancel_step(self, subscriber: AccountId, sub_id: u64) -> Result<
        (SubState, ()),
        SubError,
    > {
        if !self.subscriptions.contains_key(sub_id) {
            Err(SubError::SubscriptionNotFound)
        } else {
            let sub = self.subscriptions[sub_id];
            if sub.subscriber != subscriber {
                Err(SubError::Unauthorized)
            } else if sub.status == SubscriptionStatus::Cancelled {
                Err(SubError::SubscriptionNotActive)
            } else {
                Ok(
                    (
                        SubState {
                            subscriptions: self.subscriptions.insert(
                                sub_id,
                                Subscription { status: SubscriptionStatus::Cancelled, ..sub },
                            ),
                            ..self
                        },
                        (),
                    ),
                )
            }
        }
    }

    /// Why a payment of subscription `sub_id` would be refused before any
    /// transfer, if it would.
    pub open spec fn payment_refusal(self, sub_id: u64, current_ledger: u32) -> Option<SubError> {
        if self.paused {
            Some(SubError::ContractPaused)
        } else if !self.subscriptions.contains_key(sub_id) {
            Some(SubError::SubscriptionNotFound)
        } else if self.subscriptions[sub_id].status == SubscriptionStatus::Cancelled {
            Some(SubError::SubscriptionNotActive)
        } else if current_ledger < self.subscriptions[sub_id].next_payment_ledger {
            Some(SubError::PaymentNotDue)
        } else if !self.plans.contains_key(self.subscriptions[sub_id].plan_id) {
            Some(SubError::PlanNotFound)
        } else {
            None
        }
    }

    /// The subscription after a due payment: on success one more payment,
    /// no failure, active, next payment one interval later; on failure one
    /// more failure, and either cancellation after `MAX_RETRIES` failures or
    /// a retry one interval later.
    pub open spec fn after_payment(
        sub: Subscription,
        plan: Plan,
        current_ledger: u32,
        charged: bool,
    ) -> Subscription {
        if charged {
            Subscription {
                payments_made: (sub.payments_made + 1) as u32,
                failure_count: 0,
                status: SubscriptionStatus::Active,
                next_payment_ledger: (current_ledger + plan.interval_ledgers) as u32,
                ..sub
            }
        } else if sub.failure_count + 1 >= MAX_RETRIES {
            Subscription {
                failure_count: (sub.failure_count + 1) as u32,
                status: SubscriptionStatus::Cancelled,
                ..sub
            }
        } else {
            Subscription {
                failure_count: (sub.failure_count + 1) as u32,
                status: SubscriptionStatus::PaymentFailed,
                next_payment_ledger: (current_ledger + plan.interval_ledgers) as u32,
                ..sub
            }
        }
    }

    /// A due payment records the outcome of its charge; the value is whether
    /// the charge went through.
    pub open spec fn execute_payment_step(self, sub_id: u64, current_ledger: u32, charged: bool) -> Result<
        (SubState, bool),
        SubError,
    > {
        match self.payment_refusal(sub_id, current_ledger) {
            Some(e) => Err(e),
            None => {
                let sub = self.subscriptions[sub_id];
                let plan = self.plans[sub.plan_id];
                Ok(
                    (
                        SubState {
                            subscriptions: self.subscriptions.insert(
                                sub_id,
                                SubState::after_payment(sub, plan, current_ledger, charged),
                            ),
                            ..self
                        },
                        charged,
                    ),
                )
            },
        }
    }

    /// The arithmetic done by `execute_payment`, when it gets that far, stays
    /// within its integer types: a successful charge counts one more payment
    /// and sets the next due ledger, a failed one that does not cancel sets the
    /// next due ledger.
    pub open spec fn execute_payment_in_range(self, sub_id: u64, current_ledger: u32, charged: bool) -> bool {
        self.payment_refusal(sub_id, current_ledger) is None ==> {
            let sub = self.subscriptions[sub_id];
            let next_due_fits = current_ledger + self.plans[sub.plan_id].interval_ledgers <= u32::MAX;
            &&& charged ==> sub.payments_made < u32::MAX && next_due_fits
            &&& !charged ==> sub.failure_count < u32::MAX
            &&& (!charged && sub.failure_count + 1 < MAX_RETRIES) ==> next_due_fits
        }
    }

    pub open spec fn set_paused_step(self, paused: bool) -> Result<(SubState, ()), SubError> {
        if self.admin is None {
            Err(SubError::NotInitialized)
        } else {
            Ok((SubState { paused, ..self }, ()))
        }
    }

    pub open spec fn transfer_admin_step(self, new_admin: AccountId) -> Result<
        (SubState, ()),
        SubError,
    > {
        if self.admin is None {
            Err(SubError::NotInitialized)
        } else {
            Ok((SubState { admin: Some(new_admin), ..self }, ()))
        }
    }
}

/// The subscription contract: its storage, and its entry points as methods.
pub struct SubscriptionPayments {
    admin: Option<AccountId>,
    paused: bool,
    plan_counter: u64,
    sub_counter: u64,
    plans: HashMap<u64, Plan>,
    subscriptions: HashMap<u64, Subscription>,
}

impl View for SubscriptionPayments {
    type V = SubState;

    closed spec fn view(&self) -> SubState {
        SubState {
            admin: self.admin,
            paused: self.paused,
            plan_counter: self.plan_counter,
            sub_counter: self.sub_counter,
            plans: self.plans@,
            subscriptions: self.subscriptions@,
        }
    }
}

impl SubscriptionPayments {
    /// A contract with empty storage, before `initialize`.
    pub fn new() -> (c: Self)
        ensures
            c@ == SubState::empty(),
            c@.wf(),
    {
        SubscriptionPayments {
            admin: None,
            paused: false,
            plan_counter: 0,
            sub_counter: 0,
            plans: HashMap::new(),
            subscriptions: HashMap::new(),
        }
    }

    /// Initialise the contract with its admin. Can only be done once.
    pub fn initialize(&mut self, admin: AccountId) -> (r: Result<(), SubError>)
        requires
            old(self)@.wf(),
        ensures
            final(self)@.wf(),
            sub_outcome(old(self)@, final(self)@, r, old(self)@.initialize_step(admin)),
    {
        if self.admin.is_some() {
            return Err(SubError::AlreadyInitialized);
        }
        self.admin = Some(admin);
        self.paused = false;
        self.plan_counter = 0;
        self.sub_counter = 0;
        Ok(())
    }

    /// Create a new active recurring payment plan (admin only); returns its id.
    pub fn create_plan(
        &mut self,
        merchant: AccountId,
        token: AccountId,
        amount: i128,
        interval_ledgers: u32,
    ) -> (r: Result<u64, SubError>)
        requires
            old(self)@.wf(),
            old(self)@.create_plan_in_range(amount, interval_ledgers),
        ensures
            final(self)@.wf(),
            sub_outcome(
                old(self)@,
                final(self)@,
                r,
                old(self)@.create_plan_step(merchant, token, amount, interval_ledgers),
            ),
    {
        if self.admin.is_none() {
            return Err(SubError::NotInitialized);
        }
        if amount <= 0 {
            return Err(SubError::InvalidAmount);
        }
        if interval_ledgers == 0 {
            return Err(SubError::InvalidInterval);
        }
        let id = self.plan_counter + 1;
        let plan = Plan { merchant, token, amount, interval_ledgers, active: true };
        self.plans.insert(id, plan);
        self.plan_counter = id;
        Ok(id)
    }

    /// Deactivate a plan so that no new subscriptions can be created against
    /// it (admin only); existing subscriptions continue.
    pub fn deactivate_plan(&mut self, plan_id: u64) -> (r: Result<(), SubError>)
        requires
            old(self)@.wf(),
        ensures
            final(self)@.wf(),
            sub_outcome(old(self)@, final(self)@, r, old(self)@.deactivate_plan_step(plan_id)),
    {
        if self.admin.is_none() {
            return Err(SubError::NotInitialized);
        }
        let plan = match self.plans.get(&plan_id) {
            Some(p) => *p,
            None => return Err(SubError::PlanNotFound),
        };
        self.plans.insert(plan_id, Plan { active: false, ..plan });
        Ok(())
    }

    /// The transfer that subscribing `subscriber` to `plan_id` asks for, or
    /// why the subscription is refused before any transfer.
    pub fn subscribe_charge(&self, subscriber: AccountId, plan_id: u64) -> (r: Result<
        Charge,
        SubError,
    >)
        ensures
            match self@.subscribe_refusal(plan_id) {
                Some(e) => r == Err::<Charge, SubError>(e),
                None => r == Ok::<Charge, SubError>(
                    SubState::plan_charge(self@.plans[plan_id], subscriber),
                ),
            },
    {
        if self.paused {
            return Err(SubError::ContractPaused);
        }
        let plan = match self.plans.get(&plan_id) {
            Some(p) => *p,
            None => return Err(SubError::PlanNotFound),
        };
        if !plan.active {
            return Err(SubError::PlanInactive);
        }
        Ok(Charge { token: plan.token, from: subscriber, to: plan.merchant, amount: plan.amount })
    }

    /// Subscribe `subscriber` to `plan_id`, recording whether the first
    /// charge (the one `subscribe_charge` names) went through; returns the
    /// new subscription's id.
    pub fn subscribe(&mut self, subscriber: AccountId, plan_id: u64, current_ledger: u32, charged: bool) -> (r:
        Result<u64, SubError>)
        requires
            old(self)@.wf(),
            old(self)@.subscribe_in_range(plan_id, current_ledger),
        ensures
            final(self)@.wf(),
            sub_outcome(
                old(self)@,
                final(self)@,
                r,
                old(self)@.subscribe_step(subscriber, plan_id, current_ledger, charged),
            ),
    {
        if self.paused {
            return Err(SubError::ContractPaused);
        }
        let plan = match self.plans.get(&plan_id) {
            Some(p) => *p,
            None => return Err(SubError::PlanNotFound),
        };
        if !plan.active {
            return Err(SubError::PlanInactive);
        }
        let id = self.sub_counter + 1;
        let (status, failure_count, payments_made) = if charged {
            (SubscriptionStatus::Active, 0u32, 1u32)
        } else {
            (SubscriptionStatus::PaymentFailed, 1u32, 0u32)
        };
        let sub = Subscription {
            plan_id,
            subscriber,
            next_payment_ledger: current_ledger + plan.interval_ledgers,
            status,
            failure_count,
            payments_made,
        };
        self.subscriptions.insert(id, sub);
        self.sub_counter = id;
        Ok(id)
    }

    /// Cancel a subscription; only its subscriber may do so, at any time.
    pub fn cancel(&mut self, subscriber: AccountId, sub_id: u64) -> (r: Result<(), SubError>)
        requires
            old(self)@.wf(),
        ensures
            final(self)@.wf(),
            sub_outcome(old(self)@, final(self)@, r, old(self)@.cancel_step(subscriber, sub_id)),
    {
        let sub = match self.subscriptions.get(&sub_id) {
            Some(s) => *s,
            None => return Err(SubError::SubscriptionNotFound),
        };
        if sub.subscriber != subscriber {
            return Err(SubError::Unauthorized);
        }
        if sub.status == SubscriptionStatus::Cancelled {
            return Err(SubError::SubscriptionNotActive);
        }
        self.subscriptions.insert(sub_id, Subscription { status: SubscriptionStatus::Cancelled, ..sub });
        Ok(())
    }

    /// The transfer that a due payment of `sub_id` asks for, or why the
    /// payment is refused before any transfer.
    pub fn payment_charge(&self, sub_id: u64, current_ledger: u32) -> (r: Result<Charge, SubError>)
        ensures
            match self@.payment_refusal(sub_id, current_ledger) {
                Some(e) => r == Err::<Charge, SubError>(e),
                None => r == Ok::<Charge, SubError>(
                    SubState::plan_charge(
                        self@.plans[self@.subscriptions[sub_id].plan_id],
                        self@.subscriptions[sub_id].subscriber,
                    ),
                ),
            },
    {
        if self.paused {
            return Err(SubError::ContractPaused);
        }
        let sub = match self.subscriptions.get(&sub_id) {
            Some(s) => *s,
            None => return Err(SubError::SubscriptionNotFound),
        };
        if sub.status == SubscriptionStatus::Cancelled {
            return Err(SubError::SubscriptionNotActive);
        }
        if current_ledger < sub.next_payment_ledger {
            return Err(SubError::PaymentNotDue);
        }
        let plan = match self.plans.get(&sub.plan_id) {
            Some(p) => *p,
            None => return Err(SubError::PlanNotFound),
        };
        Ok(Charge { token: plan.token, from: sub.subscriber, to: plan.merchant, amount: plan.amount })
    }

    /// Execute a due payment of `sub_id`, recording whether its charge (the
    /// one `payment_charge` names) went through; returns that outcome.
    pub fn execute_payment(&mut self, sub_id: u64, current_ledger: u32, charged: bool) -> (r: Result<
        bool,
        SubError,
    >)
        requires
            old(self)@.wf(),
            old(self)@.execute_payment_in_range(sub_id, current_ledger, charged),
        ensures
            final(self)@.wf(),
            sub_outcome(
                old(self)@,
                final(self)@,
                r,
                old(self)@.execute_payment_step(sub_id, current_ledger, charged),
            ),
    {
        if self.paused {
            return Err(SubError::ContractPaused);
        }
        let mut sub = match self.subscriptions.get(&sub_id) {
            Some(s) => *s,
            None => return Err(SubError::SubscriptionNotFound),
        };
        if sub.status == SubscriptionStatus::Cancelled {
            return Err(SubError::SubscriptionNotActive);
        }
        if current_ledger < sub.next_payment_ledger {
            return Err(SubError::PaymentNotDue);
        }
        let plan = match self.plans.get(&sub.plan_id) {
            Some(p) => *p,
            None => return Err(SubError::PlanNotFound),
        };
        if charged {
            sub.payments_made = sub.payments_made + 1;
            sub.failure_count = 0;
            sub.status = SubscriptionStatus::Active;
            sub.next_payment_ledger = current_ledger + plan.interval_ledgers;
        } else {
            sub.failure_count = sub.failure_count + 1;
            if sub.failure_count >= MAX_RETRIES {
                sub.status = SubscriptionStatus::Cancelled;
            } else {
                sub.status = SubscriptionStatus::PaymentFailed;
                sub.next_payment_ledger = current_ledger + plan.interval_ledgers;
            }
        }
        self.subscriptions.insert(sub_id, sub);
        Ok(charged)
    }

    /// Pause the contract (admin only): subscribing and paying are refused;
    /// subscribers can still cancel.
    pub fn pause(&mut self) -> (r: Result<(), SubError>)
        requires
            old(self)@.wf(),
        ensures
            final(self)@.wf(),
            sub_outcome(old(self)@, final(self)@, r, old(self)@.set_paused_step(true)),
    {
        if self.admin.is_none() {
            return Err(SubError::NotInitialized);
        }
        self.paused = true;
        Ok(())
    }

    /// Lift a pause (admin only).
    pub fn unpause(&mut self) -> (r: Result<(), SubError>)
        requires
            old(self)@.wf(),
        ensures
            final(self)@.wf(),
            sub_outcome(old(self)@, final(self)@, r, old(self)@.set_paused_step(false)),
    {
        if self.admin.is_none() {
            return Err(SubError::NotInitialized);
        }
        self.paused = false;
        Ok(())
    }

    /// Hand the admin role to `new_admin` (admin only).
    pub fn transfer_admin(&mut self, new_admin: AccountId) -> (r: Result<(), SubError>)
        requires
            old(self)@.wf(),
        ensures
            final(self)@.wf(),
            sub_outcome(old(self)@, final(self)@, r, old(self)@.transfer_admin_step(new_admin)),
    {
        if self.admin.is_none() {
            return Err(SubError::NotInitialized);
        }
        self.admin = Some(new_admin);
        Ok(())
    }

    /// The plan with id `plan_id`.
    pub fn get_plan(&self, plan_id: u64) -> (r: Result<Plan, SubError>)
        ensures
            match r {
                Ok(p) => self@.plans.contains_key(plan_id) && p == self@.plans[plan_id],
                Err(e) => !self@.plans.contains_key(plan_id) && e == SubError::PlanNotFound,
            },
    {
        match self.plans.get(&plan_id) {
            Some(p) => Ok(*p),
            None => Err(SubError::PlanNotFound),
        }
    }

    /// The subscription with id `sub_id`.
    pub fn get_subscription(&self, sub_id: u64) -> (r: Result<Subscription, SubError>)
        ensures
            match r {
                Ok(s) => self@.subscriptions.contains_key(sub_id) && s == self@.subscriptions[sub_id],
                Err(e) => !self@.subscriptions.contains_key(sub_id) && e
                    == SubError::SubscriptionNotFound,
            },
    {
        match self.subscriptions.get(&sub_id) {
            Some(s) => Ok(*s),
            None => Err(SubError::SubscriptionNotFound),
        }
    }

    /// Whether the contract is paused.
    pub fn is_paused(&self) -> (r: bool)
        ensures
            r == self@.paused,
    {
        self.paused
    }

    /// The current admin.
    pub fn get_admin(&self) -> (r: Result<AccountId, SubError>)
        ensures
            match self@.admin {
                Some(a) => r == Ok::<AccountId, SubError>(a),
                None => r == Err::<AccountId, SubError>(SubError::NotInitialized),
            },
    {
        match self.admin {
            Some(a) => Ok(a),
            None => Err(SubError::NotInitialized),
        }
    }

    /// Number of plans created so far.
    pub fn plan_count(&self) -> (r: u64)
        ensures
            r == self@.plan_counter,
    {
        self.plan_counter
    }

    /// Number of subscriptions created so far.
    pub fn sub_count(&self) -> (r: u64)
        ensures
            r == self@.sub_counter,
    {
        self.sub_counter
    }
}

} // verus!
