use std::collections::HashMap;
use zaps::account::AccountId;
use zaps::subscription::{Charge, SubError, SubscriptionPayments, SubscriptionStatus, MAX_RETRIES};

/// A token contract: balances and allowances given to the subscription contract.
struct Token {
    balances: HashMap<AccountId, i128>,
    allowances: HashMap<AccountId, i128>,
}

impl Token {
    fn new() -> Self {
        Token { balances: HashMap::new(), allowances: HashMap::new() }
    }

    fn mint(&mut self, to: AccountId, amount: i128) {
        *self.balances.entry(to).or_insert(0) += amount;
    }

    fn approve(&mut self, owner: AccountId, amount: i128) {
        self.allowances.insert(owner, amount);
    }

    fn balance(&self, who: AccountId) -> i128 {
        *self.balances.get(&who).unwrap_or(&0)
    }

    fn transfer(&mut self, from: AccountId, to: AccountId, amount: i128) {
        assert!(self.balance(from) >= amount);
        *self.balances.entry(from).or_insert(0) -= amount;
        *self.balances.entry(to).or_insert(0) += amount;
    }

    /// `transfer_from` by the subscription contract; false when it fails.
    fn try_transfer_from(&mut self, charge: Charge) -> bool {
        let allowance = *self.allowances.get(&charge.from).unwrap_or(&0);
        if allowance < charge.amount || self.balance(charge.from) < charge.amount {
            return false;
        }
        self.allowances.insert(charge.from, allowance - charge.amount);
        self.transfer(charge.from, charge.to, charge.amount);
        true
    }
}

struct Setup {
    client: SubscriptionPayments,
    token: Token,
    ledger: u32,
    next_account: AccountId,
    admin: AccountId,
    merchant: AccountId,
    subscriber: AccountId,
    token_id: AccountId,
    /// Plan created during setup: 100 tokens every 1000 ledgers.
    plan_id: u64,
}

impl Setup {
    fn with_funds(funds: i128) -> Self {
        let admin = 1;
        let merchant = 2;
        let subscriber = 3;
        let token_id = 4;
        let mut token = Token::new();
        token.mint(subscriber, funds);
        let mut client = SubscriptionPayments::new();
        client.initialize(admin).unwrap();
        let plan_id = client.create_plan(merchant, token_id, 100, 1000).unwrap();
        token.approve(subscriber, 1_000_000);
        Setup { client, token, ledger: 0, next_account: 5, admin, merchant, subscriber, token_id, plan_id }
    }

    fn new() -> Self {
        Setup::with_funds(1_000_000)
    }

    fn generate(&mut self) -> AccountId {
        let a = self.next_account;
        self.next_account += 1;
        a
    }

    fn try_subscribe(&mut self, subscriber: AccountId, plan_id: u64) -> Result<u64, SubError> {
        let charge = self.client.subscribe_charge(subscriber, plan_id)?;
        let charged = self.token.try_transfer_from(charge);
        self.client.subscribe(subscriber, plan_id, self.ledger, charged)
    }

    fn subscribe(&mut self) -> u64 {
        let (subscriber, plan_id) = (self.subscriber, self.plan_id);
        self.try_subscribe(subscriber, plan_id).unwrap()
    }

    fn try_execute_payment(&mut self, sub_id: u64) -> Result<bool, SubError> {
        let charge = self.client.payment_charge(sub_id, self.ledger)?;
        let charged = self.token.try_transfer_from(charge);
        self.client.execute_payment(sub_id, self.ledger, charged)
    }
}

#[test]
fn test_test_double_init_rejected() {
    let mut s = Setup::new();
    assert_eq!(s.client.initialize(s.admin), Err(SubError::AlreadyInitialized));
}

#[test]
fn test_create_plan_stores_correctly() {
    let s = Setup::new();
    let plan = s.client.get_plan(s.plan_id).unwrap();
    assert_eq!(plan.merchant, s.merchant);
    assert_eq!(plan.amount, 100);
    assert_eq!(plan.interval_ledgers, 1000);
    assert!(plan.active);
}

#[test]
fn test_create_plan_invalid_amount_rejected() {
    let mut s = Setup::new();
    assert_eq!(s.client.create_plan(s.merchant, s.token_id, 0, 1000), Err(SubError::InvalidAmount));
}

#[test]
fn test_create_plan_invalid_interval_rejected() {
    let mut s = Setup::new();
    assert_eq!(s.client.create_plan(s.merchant, s.token_id, 100, 0), Err(SubError::InvalidInterval));
}

#[test]
fn test_deactivate_plan() {
    let mut s = Setup::new();
    s.client.deactivate_plan(s.plan_id).unwrap();
    let plan = s.client.get_plan(s.plan_id).unwrap();
    assert!(!plan.active);
}

#[test]
fn test_subscribe_to_inactive_plan_rejected() {
    let mut s = Setup::new();
    s.client.deactivate_plan(s.plan_id).unwrap();
    let (subscriber, plan_id) = (s.subscriber, s.plan_id);
    assert_eq!(s.try_subscribe(subscriber, plan_id), Err(SubError::PlanInactive));
}

#[test]
fn test_subscribe_executes_first_payment() {
    let mut s = Setup::new();
    let sub_id = s.subscribe();
    assert_eq!(s.token.balance(s.merchant), 100);
    let sub = s.client.get_subscription(sub_id).unwrap();
    assert_eq!(sub.status, SubscriptionStatus::Active);
    assert_eq!(sub.payments_made, 1);
    assert_eq!(sub.failure_count, 0);
}

#[test]
fn test_subscribe_sets_next_payment_ledger() {
    let mut s = Setup::new();
    let current = s.ledger;
    let sub_id = s.subscribe();
    let sub = s.client.get_subscription(sub_id).unwrap();
    assert_eq!(sub.next_payment_ledger, current + 1000);
}

#[test]
fn test_execute_payment_before_due_rejected() {
    let mut s = Setup::new();
    let sub_id = s.subscribe();
    assert_eq!(s.try_execute_payment(sub_id), Err(SubError::PaymentNotDue));
}

#[test]
fn test_execute_payment_on_due_ledger_succeeds() {
    let mut s = Setup::new();
    let sub_id = s.subscribe();
    s.ledger += 1000;
    let success = s.try_execute_payment(sub_id).unwrap();
    assert!(success);
    assert_eq!(s.token.balance(s.merchant), 200);
    let sub = s.client.get_subscription(sub_id).unwrap();
    assert_eq!(sub.payments_made, 2);
    assert_eq!(sub.failure_count, 0);
    assert_eq!(sub.status, SubscriptionStatus::Active);
}

#[test]
fn test_execute_payment_advances_next_due_ledger() {
    let mut s = Setup::new();
    let sub_id = s.subscribe();
    s.ledger += 1000;
    s.try_execute_payment(sub_id).unwrap();
    let sub = s.client.get_subscription(sub_id).unwrap();
    let current = s.ledger;
    assert_eq!(sub.next_payment_ledger, current + 1000);
}

#[test]
fn test_cancel_subscription() {
    let mut s = Setup::new();
    let sub_id = s.subscribe();
    s.client.cancel(s.subscriber, sub_id).unwrap();
    let sub = s.client.get_subscription(sub_id).unwrap();
    assert_eq!(sub.status, SubscriptionStatus::Cancelled);
}

#[test]
fn test_cancel_already_cancelled_rejected() {
    let mut s = Setup::new();
    let sub_id = s.subscribe();
    s.client.cancel(s.subscriber, sub_id).unwrap();
    assert_eq!(s.client.cancel(s.subscriber, sub_id), Err(SubError::SubscriptionNotActive));
}

#[test]
fn test_execute_payment_on_cancelled_subscription_rejected() {
    let mut s = Setup::new();
    let sub_id = s.subscribe();
    s.client.cancel(s.subscriber, sub_id).unwrap();
    s.ledger += 1000;
    assert_eq!(s.try_execute_payment(sub_id), Err(SubError::SubscriptionNotActive));
}

#[test]
fn test_cancel_by_wrong_address_rejected() {
    let mut s = Setup::new();
    let sub_id = s.subscribe();
    let other = s.generate();
    assert_eq!(s.client.cancel(other, sub_id), Err(SubError::Unauthorized));
}

#[test]
fn test_payment_failure_increments_failure_count() {
    let mut s = Setup::with_funds(100);
    let sub_id = s.subscribe();
    let sub = s.client.get_subscription(sub_id).unwrap();
    assert_eq!(sub.payments_made, 1);
    assert_eq!(sub.failure_count, 0);
    s.ledger += 1000;
    let success = s.try_execute_payment(sub_id).unwrap();
    assert!(!success);
    let sub = s.client.get_subscription(sub_id).unwrap();
    assert_eq!(sub.failure_count, 1);
    assert_eq!(sub.status, SubscriptionStatus::PaymentFailed);
}

#[test]
fn test_auto_cancel_after_max_retries() {
    let mut s = Setup::with_funds(100);
    let sub_id = s.subscribe();
    for i in 1..=MAX_RETRIES {
        s.ledger += 1000;
        let success = s.try_execute_payment(sub_id).unwrap();
        assert!(!success);
        let sub = s.client.get_subscription(sub_id).unwrap();
        if i < MAX_RETRIES {
            assert_eq!(sub.status, SubscriptionStatus::PaymentFailed);
        } else {
            assert_eq!(sub.status, SubscriptionStatus::Cancelled);
        }
    }
}

#[test]
fn test_failure_count_resets_on_success() {
    let mut s = Setup::with_funds(200);
    let sub_id = s.subscribe();
    let (subscriber, merchant) = (s.subscriber, s.merchant);
    s.token.transfer(subscriber, merchant, 100);
    s.ledger += 1000;
    let fail = s.try_execute_payment(sub_id).unwrap();
    assert!(!fail);
    assert_eq!(s.client.get_subscription(sub_id).unwrap().failure_count, 1);
    s.token.mint(subscriber, 100);
    s.ledger += 1000;
    let success = s.try_execute_payment(sub_id).unwrap();
    assert!(success);
    let sub = s.client.get_subscription(sub_id).unwrap();
    assert_eq!(sub.failure_count, 0);
    assert_eq!(sub.status, SubscriptionStatus::Active);
}

#[test]
fn test_pause_blocks_subscribe_and_execute() {
    let mut s = Setup::new();
    let sub_id = s.subscribe();
    s.client.pause().unwrap();
    assert!(s.client.is_paused());
    let (subscriber, plan_id) = (s.subscriber, s.plan_id);
    assert_eq!(s.try_subscribe(subscriber, plan_id), Err(SubError::ContractPaused));
    s.ledger += 1000;
    assert_eq!(s.try_execute_payment(sub_id), Err(SubError::ContractPaused));
    s.client.unpause().unwrap();
    assert!(!s.client.is_paused());
}

#[test]
fn test_test_transfer_admin() {
    let mut s = Setup::new();
    let new_admin = s.generate();
    s.client.transfer_admin(new_admin).unwrap();
    assert_eq!(s.client.get_admin(), Ok(new_admin));
}

#[test]
fn test_plan_and_sub_counters() {
    let mut s = Setup::new();
    assert_eq!(s.client.plan_count(), 1);
    s.subscribe();
    assert_eq!(s.client.sub_count(), 1);
}
