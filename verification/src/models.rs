//! Backend domain models: the textual codes of the status enums stored in
//! the database, and the plain records exchanged with clients.
use crate::text::{owned, text_is};
use vstd::prelude::*;

verus! {

/// Lifecycle of a merchant payment.
#[derive(Clone, Copy, PartialEq, Eq, Structural, Debug)]
pub enum PaymentStatus {
    Pending,
    Processing,
    Completed,
    Failed,
    Refunded,
}

impl PaymentStatus {
    /// The code under which the status is stored.
    pub open spec fn code(self) -> Seq<char> {
        match self {
            PaymentStatus::Pending => "pending"@,
            PaymentStatus::Processing => "processing"@,
            PaymentStatus::Completed => "completed"@,
            PaymentStatus::Failed => "failed"@,
            PaymentStatus::Refunded => "refunded"@,
        }
    }

    /// The status a stored code denotes; an unknown code denotes `Pending`.
    pub open spec fn from_code(s: Seq<char>) -> PaymentStatus {
        if s == "completed"@ {
            PaymentStatus::Completed
        } else if s == "processing"@ {
            PaymentStatus::Processing
        } else if s == "failed"@ {
            PaymentStatus::Failed
        } else if s == "refunded"@ {
            PaymentStatus::Refunded
        } else {
            PaymentStatus::Pending
        }
    }

    /// Parse a stored code; never fails.
    pub fn parse(s: &str) -> (r: PaymentStatus)
        ensures
            r == PaymentStatus::from_code(s@),
    {
        if text_is(s, "completed") {
            PaymentStatus::Completed
        } else if text_is(s, "processing") {
            PaymentStatus::Processing
        } else if text_is(s, "failed") {
            PaymentStatus::Failed
        } else if text_is(s, "refunded") {
            PaymentStatus::Refunded
        } else {
            PaymentStatus::Pending
        }
    }

    /// The stored code of this status.
    pub fn to_string(&self) -> (r: String)
        ensures
            r@ == self.code(),
    {
        match self {
            PaymentStatus::Pending => owned("pending"),
            PaymentStatus::Processing => owned("processing"),
            PaymentStatus::Completed => owned("completed"),
            PaymentStatus::Failed => owned("failed"),
            PaymentStatus::Refunded => owned("refunded"),
        }
    }
}

impl std::str::FromStr for PaymentStatus {
    type Err = std::convert::Infallible;

    fn from_str(s: &str) -> (r: Result<Self, Self::Err>)
        ensures
            r == Ok::<PaymentStatus, std::convert::Infallible>(PaymentStatus::from_code(s@)),
    {
        Ok(PaymentStatus::parse(s))
    }
}

/// Parsing the code of a status gives the status back.
pub proof fn lemma_payment_status_round_trip(st: PaymentStatus)
    ensures
        PaymentStatus::from_code(st.code()) == st,
{
    reveal_strlit("pending");
    reveal_strlit("processing");
    reveal_strlit("completed");
    reveal_strlit("failed");
    reveal_strlit("refunded");
    assert("pending"@.len() == 7);
    assert("processing"@.len() == 10);
    assert("completed"@.len() == 9);
    assert("failed"@.len() == 6);
    assert("refunded"@.len() == 8);
}

/// Lifecycle of a peer-to-peer transfer.
#[derive(Clone, Copy, PartialEq, Eq, Structural, Debug)]
pub enum TransferStatus {
    Pending,
    Processing,
    Completed,
    Failed,
}

impl TransferStatus {
    /// The code under which the value is stored.
    pub open spec fn code(self) -> Seq<char> {
        match self {
            TransferStatus::Pending => "pending"@,
            TransferStatus::Processing => "processing"@,
            TransferStatus::Completed => "completed"@,
            TransferStatus::Failed => "failed"@,
        }
    }

    /// The value a stored code denotes; an unknown code denotes `Pending`.
    pub open spec fn from_code(s: Seq<char>) -> TransferStatus {
        if s == "processing"@ {
            TransferStatus::Processing
        } else if s == "completed"@ {
            TransferStatus::Completed
        } else if s == "failed"@ {
            TransferStatus::Failed
        } else {
            TransferStatus::Pending
        }
    }

    /// Parse a stored code; never fails.
    pub fn parse(s: &str) -> (r: TransferStatus)
        ensures
            r == TransferStatus::from_code(s@),
    {
        if text_is(s, "processing") {
            TransferStatus::Processing
        } else if text_is(s, "completed") {
            TransferStatus::Completed
        } else if text_is(s, "failed") {
            TransferStatus::Failed
        } else {
            TransferStatus::Pending
        }
    }

    /// The stored code of this value.
    pub fn to_string(&self) -> (r: String)
        ensures
            r@ == self.code(),
    {
        match self {
            TransferStatus::Pending => owned("pending"),
            TransferStatus::Processing => owned("processing"),
            TransferStatus::Completed => owned("completed"),
            TransferStatus::Failed => owned("failed"),
        }
    }
}

impl std::str::FromStr for TransferStatus {
    type Err = std::convert::Infallible;

    fn from_str(s: &str) -> (r: Result<Self, Self::Err>)
        ensures
            r == Ok::<TransferStatus, std::convert::Infallible>(TransferStatus::from_code(s@)),
    {
        Ok(TransferStatus::parse(s))
    }
}

/// Parsing the code of a value gives the value back.
pub proof fn lemma_transfer_status_round_trip(x: TransferStatus)
    ensures
        TransferStatus::from_code(x.code()) == x,
{
    reveal_strlit("pending");
    reveal_strlit("processing");
    reveal_strlit("completed");
    reveal_strlit("failed");
    assert("pending"@.len() == 7);
    assert("processing"@.len() == 10);
    assert("completed"@.len() == 9);
    assert("failed"@.len() == 6);
}

/// Lifecycle of a withdrawal to an external address.
#[derive(Clone, Copy, PartialEq, Eq, Structural, Debug)]
pub enum WithdrawalStatus {
    Pending,
    Processing,
    Completed,
    Failed,
}

impl WithdrawalStatus {
    /// The code under which the value is stored.
    pub open spec fn code(self) -> Seq<char> {
        match self {
            WithdrawalStatus::Pending => "pending"@,
            WithdrawalStatus::Processing => "processing"@,
            WithdrawalStatus::Completed => "completed"@,
            WithdrawalStatus::Failed => "failed"@,
        }
    }

    /// The value a stored code denotes; an unknown code denotes `Pending`.
    pub open spec fn from_code(s: Seq<char>) -> WithdrawalStatus {
        if s == "processing"@ {
            WithdrawalStatus::Processing
        } else if s == "completed"@ {
            WithdrawalStatus::Completed
        } else if s == "failed"@ {
            WithdrawalStatus::Failed
        } else {
            WithdrawalStatus::Pending
        }
    }

    /// Parse a stored code; never fails.
    pub fn parse(s: &str) -> (r: WithdrawalStatus)
        ensures
            r == WithdrawalStatus::from_code(s@),
    {
        if text_is(s, "processing") {
            WithdrawalStatus::Processing
        } else if text_is(s, "completed") {
            WithdrawalStatus::Completed
        } else if text_is(s, "failed") {
            WithdrawalStatus::Failed
        } else {
            WithdrawalStatus::Pending
        }
    }

    /// The stored code of this value.
    pub fn to_string(&self) -> (r: String)
        ensures
            r@ == self.code(),
    {
        match self {
            WithdrawalStatus::Pending => owned("pending"),
            WithdrawalStatus::Processing => owned("processing"),
            WithdrawalStatus::Completed => owned("completed"),
            WithdrawalStatus::Failed => owned("failed"),
        }
    }
}

impl std::str::FromStr for WithdrawalStatus {
    type Err = std::convert::Infallible;

    fn from_str(s: &str) -> (r: Result<Self, Self::Err>)
        ensures
            r == Ok::<WithdrawalStatus, std::convert::Infallible>(WithdrawalStatus::from_code(s@)),
    {
        Ok(WithdrawalStatus::parse(s))
    }
}

/// Parsing the code of a value gives the value back.
pub proof fn lemma_withdrawal_status_round_trip(x: WithdrawalStatus)
    ensures
        WithdrawalStatus::from_code(x.code()) == x,
{
    reveal_strlit("pending");
    reveal_strlit("processing");
    reveal_strlit("completed");
    reveal_strlit("failed");
    assert("pending"@.len() == 7);
    assert("processing"@.len() == 10);
    assert("completed"@.len() == 9);
    assert("failed"@.len() == 6);
}

/// Lifecycle of a cross-chain bridge transaction.
#[derive(Clone, Copy, PartialEq, Eq, Structural, Debug)]
pub enum BridgeTransactionStatus {
    Pending,
    Confirming,
    Completed,
    Failed,
}

impl BridgeTransactionStatus {
    /// The code under which the value is stored.
    pub open spec fn code(self) -> Seq<char> {
        match self {
            BridgeTransactionStatus::Pending => "pending"@,
            BridgeTransactionStatus::Confirming => "confirming"@,
            BridgeTransactionStatus::Completed => "completed"@,
            BridgeTransactionStatus::Failed => "failed"@,
        }
    }

    /// The value a stored code denotes; an unknown code denotes `Pending`.
    pub open spec fn from_code(s: Seq<char>) -> BridgeTransactionStatus {
        if s == "confirming"@ {
            BridgeTransactionStatus::Confirming
        } else if s == "completed"@ {
            BridgeTransactionStatus::Completed
        } else if s == "failed"@ {
            BridgeTransactionStatus::Failed
        } else {
            BridgeTransactionStatus::Pending
        }
    }

    /// Parse a stored code; never fails.
    pub fn parse(s: &str) -> (r: BridgeTransactionStatus)
        ensures
            r == BridgeTransactionStatus::from_code(s@),
    {
        if text_is(s, "confirming") {
            BridgeTransactionStatus::Confirming
        } else if text_is(s, "completed") {
            BridgeTransactionStatus::Completed
        } else if text_is(s, "failed") {
            BridgeTransactionStatus::Failed
        } else {
            BridgeTransactionStatus::Pending
        }
    }

    /// The stored code of this value.
    pub fn to_string(&self) -> (r: String)
        ensures
            r@ == self.code(),
    {
        match self {
            BridgeTransactionStatus::Pending => owned("pending"),
            BridgeTransactionStatus::Confirming => owned("confirming"),
            BridgeTransactionStatus::Completed => owned("completed"),
            BridgeTransactionStatus::Failed => owned("failed"),
        }
    }
}

impl std::str::FromStr for BridgeTransactionStatus {
    type Err = std::convert::Infallible;

    fn from_str(s: &str) -> (r: Result<Self, Self::Err>)
        ensures
            r == Ok::<BridgeTransactionStatus, std::convert::Infallible>(BridgeTransactionStatus::from_code(s@)),
    {
        Ok(BridgeTransactionStatus::parse(s))
    }
}

/// Parsing the code of a value gives the value back.
pub proof fn lemma_bridge_transaction_status_round_trip(x: BridgeTransactionStatus)
    ensures
        BridgeTransactionStatus::from_code(x.code()) == x,
{
    reveal_strlit("pending");
    reveal_strlit("confirming");
    reveal_strlit("completed");
    reveal_strlit("failed");
    assert("pending"@.len() == 7);
    assert("confirming"@.len() == 10);
    assert("completed"@.len() == 9);
    assert("failed"@.len() == 6);
}

/// Category of a user notification.
#[derive(Clone, Copy, PartialEq, Eq, Structural, Debug)]
pub enum NotificationType {
    SYSTEM,
    ACTION,
    SECURITY,
}

impl NotificationType {
    /// The code under which the value is stored.
    pub open spec fn code(self) -> Seq<char> {
        match self {
            NotificationType::SYSTEM => "SYSTEM"@,
            NotificationType::ACTION => "ACTION"@,
            NotificationType::SECURITY => "SECURITY"@,
        }
    }

    /// The value a stored code denotes; an unknown code denotes `SYSTEM`.
    pub open spec fn from_code(s: Seq<char>) -> NotificationType {
        if s == "SYSTEM"@ {
            NotificationType::SYSTEM
        } else if s == "ACTION"@ {
            NotificationType::ACTION
        } else if s == "SECURITY"@ {
            NotificationType::SECURITY
        } else {
            NotificationType::SYSTEM
        }
    }

    /// Parse a stored code; never fails.
    pub fn parse(s: &str) -> (r: NotificationType)
        ensures
            r == NotificationType::from_code(s@),
    {
        if text_is(s, "SYSTEM") {
            NotificationType::SYSTEM
        } else if text_is(s, "ACTION") {
            NotificationType::ACTION
        } else if text_is(s, "SECURITY") {
            NotificationType::SECURITY
        } else {
            NotificationType::SYSTEM
        }
    }

    /// The stored code of this value.
    pub fn to_string(&self) -> (r: String)
        ensures
            r@ == self.code(),
    {
        match self {
            NotificationType::SYSTEM => owned("SYSTEM"),
            NotificationType::ACTION => owned("ACTION"),
            NotificationType::SECURITY => owned("SECURITY"),
        }
    }
}

impl std::str::FromStr for NotificationType {
    type Err = std::convert::Infallible;

    fn from_str(s: &str) -> (r: Result<Self, Self::Err>)
        ensures
            r == Ok::<NotificationType, std::convert::Infallible>(NotificationType::from_code(s@)),
    {
        Ok(NotificationType::parse(s))
    }
}

/// Parsing the code of a value gives the value back.
pub proof fn lemma_notification_type_round_trip(x: NotificationType)
    ensures
        NotificationType::from_code(x.code()) == x,
{
    reveal_strlit("SYSTEM");
    reveal_strlit("ACTION");
    reveal_strlit("SECURITY");
    assert("SYSTEM"@.len() == 6);
    assert("ACTION"@.len() == 6);
    assert("SECURITY"@.len() == 8);
    assert("SYSTEM"@[0] != "ACTION"@[0]);
}

/// Risk level assigned to a transaction.
#[derive(Clone, Copy, PartialEq, Eq, Structural, Debug)]
pub enum RiskLevel {
    Low,
    Medium,
    High,
    Blocked,
}

impl RiskLevel {
    /// The code under which the value is stored.
    pub open spec fn code(self) -> Seq<char> {
        match self {
            RiskLevel::Low => "low"@,
            RiskLevel::Medium => "medium"@,
            RiskLevel::High => "high"@,
            RiskLevel::Blocked => "blocked"@,
        }
    }

    /// The stored code of this value.
    pub fn to_string(&self) -> (r: String)
        ensures
            r@ == self.code(),
    {
        match self {
            RiskLevel::Low => owned("low"),
            RiskLevel::Medium => owned("medium"),
            RiskLevel::High => owned("high"),
            RiskLevel::Blocked => owned("blocked"),
        }
    }
}

/// Payment dispute status lifecycle.
#[derive(Clone, Copy, PartialEq, Eq, Structural, Debug)]
pub enum DisputeStatus {
    /// Dispute has been filed and is awaiting review.
    Open,
    /// Dispute is under active investigation.
    UnderReview,
    /// Dispute has been resolved in the customer's favour (refund issued).
    ResolvedCustomer,
    /// Dispute has been resolved in the merchant's favour (no refund).
    ResolvedMerchant,
    /// Dispute was closed without a resolution (e.g. withdrawn by customer).
    Closed,
}

impl DisputeStatus {
    /// The code under which the value is stored.
    pub open spec fn code(self) -> Seq<char> {
        match self {
            DisputeStatus::Open => "open"@,
            DisputeStatus::UnderReview => "under_review"@,
            DisputeStatus::ResolvedCustomer => "resolved_customer"@,
            DisputeStatus::ResolvedMerchant => "resolved_merchant"@,
            DisputeStatus::Closed => "closed"@,
        }
    }

    /// The value a stored code denotes; an unknown code denotes `Open`.
    pub open spec fn from_code(s: Seq<char>) -> DisputeStatus {
        if s == "under_review"@ {
            DisputeStatus::UnderReview
        } else if s == "resolved_customer"@ {
            DisputeStatus::ResolvedCustomer
        } else if s == "resolved_merchant"@ {
            DisputeStatus::ResolvedMerchant
        } else if s == "closed"@ {
            DisputeStatus::Closed
        } else {
            DisputeStatus::Open
        }
    }

    /// Parse a stored code; never fails.
    pub fn parse(s: &str) -> (r: DisputeStatus)
        ensures
            r == DisputeStatus::from_code(s@),
    {
        if text_is(s, "under_review") {
            DisputeStatus::UnderReview
        } else if text_is(s, "resolved_customer") {
            DisputeStatus::ResolvedCustomer
        } else if text_is(s, "resolved_merchant") {
            DisputeStatus::ResolvedMerchant
        } else if text_is(s, "closed") {
            DisputeStatus::Closed
        } else {
            DisputeStatus::Open
        }
    }

    /// The stored code of this value.
    pub fn to_string(&self) -> (r: String)
        ensures
            r@ == self.code(),
    {
        match self {
            DisputeStatus::Open => owned("open"),
            DisputeStatus::UnderReview => owned("under_review"),
            DisputeStatus::ResolvedCustomer => owned("resolved_customer"),
            DisputeStatus::ResolvedMerchant => owned("resolved_merchant"),
            DisputeStatus::Closed => owned("closed"),
        }
    }
}

impl std::str::FromStr for DisputeStatus {
    type Err = std::convert::Infallible;

    fn from_str(s: &str) -> (r: Result<Self, Self::Err>)
        ensures
            r == Ok::<DisputeStatus, std::convert::Infallible>(DisputeStatus::from_code(s@)),
    {
        Ok(DisputeStatus::parse(s))
    }
}

/// Parsing the code of a value gives the value back.
pub proof fn lemma_dispute_status_round_trip(x: DisputeStatus)
    ensures
        DisputeStatus::from_code(x.code()) == x,
{
    reveal_strlit("open");
    reveal_strlit("under_review");
    reveal_strlit("resolved_customer");
    reveal_strlit("resolved_merchant");
    reveal_strlit("closed");
    assert("open"@.len() == 4);
    assert("under_review"@.len() == 12);
    assert("resolved_customer"@.len() == 17);
    assert("resolved_merchant"@.len() == 17);
    assert("closed"@.len() == 6);
    assert("resolved_customer"@[9] != "resolved_merchant"@[9]);
}

/// Reason category for a payment dispute.
#[derive(Clone, Copy, PartialEq, Eq, Structural, Debug)]
pub enum DisputeReason {
    /// Customer did not authorise the transaction.
    Unauthorized,
    /// Goods or services were not delivered.
    NotDelivered,
    /// Goods or services were significantly not as described.
    NotAsDescribed,
    /// Customer was charged the wrong amount.
    IncorrectAmount,
    /// Duplicate charge for the same transaction.
    Duplicate,
    /// Any other reason (details in the dispute's description).
    Other,
}

impl DisputeReason {
    /// The code under which the value is stored.
    pub open spec fn code(self) -> Seq<char> {
        match self {
            DisputeReason::Unauthorized => "unauthorized"@,
            DisputeReason::NotDelivered => "not_delivered"@,
            DisputeReason::NotAsDescribed => "not_as_described"@,
            DisputeReason::IncorrectAmount => "incorrect_amount"@,
            DisputeReason::Duplicate => "duplicate"@,
            DisputeReason::Other => "other"@,
        }
    }

    /// The value a stored code denotes; an unknown code denotes `Other`.
    pub open spec fn from_code(s: Seq<char>) -> DisputeReason {
        if s == "unauthorized"@ {
            DisputeReason::Unauthorized
        } else if s == "not_delivered"@ {
            DisputeReason::NotDelivered
        } else if s == "not_as_described"@ {
            DisputeReason::NotAsDescribed
        } else if s == "incorrect_amount"@ {
            DisputeReason::IncorrectAmount
        } else if s == "duplicate"@ {
            DisputeReason::Duplicate
        } else {
            DisputeReason::Other
        }
    }

    /// Parse a stored code; never fails.
    pub fn parse(s: &str) -> (r: DisputeReason)
        ensures
            r == DisputeReason::from_code(s@),
    {
        if text_is(s, "unauthorized") {
            DisputeReason::Unauthorized
        } else if text_is(s, "not_delivered") {
            DisputeReason::NotDelivered
        } else if text_is(s, "not_as_described") {
            DisputeReason::NotAsDescribed
        } else if text_is(s, "incorrect_amount") {
            DisputeReason::IncorrectAmount
        } else if text_is(s, "duplicate") {
            DisputeReason::Duplicate
        } else {
            DisputeReason::Other
        }
    }

    /// The stored code of this value.
    pub fn to_string(&self) -> (r: String)
        ensures
            r@ == self.code(),
    {
        match self {
            DisputeReason::Unauthorized => owned("unauthorized"),
            DisputeReason::NotDelivered => owned("not_delivered"),
            DisputeReason::NotAsDescribed => owned("not_as_described"),
            DisputeReason::IncorrectAmount => owned("incorrect_amount"),
            DisputeReason::Duplicate => owned("duplicate"),
            DisputeReason::Other => owned("other"),
        }
    }
}

impl std::str::FromStr for DisputeReason {
    type Err = std::convert::Infallible;

    fn from_str(s: &str) -> (r: Result<Self, Self::Err>)
        ensures
            r == Ok::<DisputeReason, std::convert::Infallible>(DisputeReason::from_code(s@)),
    {
        Ok(DisputeReason::parse(s))
    }
}

/// Parsing the code of a value gives the value back.
pub proof fn lemma_dispute_reason_round_trip(x: DisputeReason)
    ensures
        DisputeReason::from_code(x.code()) == x,
{
    reveal_strlit("unauthorized");
    reveal_strlit("not_delivered");
    reveal_strlit("not_as_described");
    reveal_strlit("incorrect_amount");
    reveal_strlit("duplicate");
    reveal_strlit("other");
    assert("unauthorized"@.len() == 12);
    assert("not_delivered"@.len() == 13);
    assert("not_as_described"@.len() == 16);
    assert("incorrect_amount"@.len() == 16);
    assert("duplicate"@.len() == 9);
    assert("other"@.len() == 5);
    assert("not_as_described"@[0] != "incorrect_amount"@[0]);
}

/// Payment reconciliation status.
#[derive(Clone, Copy, PartialEq, Eq, Structural, Debug)]
pub enum ReconciliationStatus {
    Pending,
    Matched,
    Mismatched,
    ManualReview,
    Resolved,
}

/// The error of parsing a text that is no reconciliation status code.
#[derive(Clone, Copy, PartialEq, Eq, Structural, Debug)]
pub struct ParseReconciliationStatusError;

impl ParseReconciliationStatusError {
    /// The message describing this error.
    pub fn to_string(&self) -> (r: String)
        ensures
            r@ == "invalid reconciliation status"@,
    {
        owned("invalid reconciliation status")
    }
}

impl ReconciliationStatus {
    /// The code under which the status is stored.
    pub open spec fn code(self) -> Seq<char> {
        match self {
            ReconciliationStatus::Pending => "pending"@,
            ReconciliationStatus::Matched => "matched"@,
            ReconciliationStatus::Mismatched => "mismatched"@,
            ReconciliationStatus::ManualReview => "manual_review"@,
            ReconciliationStatus::Resolved => "resolved"@,
        }
    }

    /// The status a stored code denotes, if it is one of the five codes.
    pub open spec fn from_code(s: Seq<char>) -> Option<ReconciliationStatus> {
        if s == "pending"@ {
            Some(ReconciliationStatus::Pending)
        } else if s == "matched"@ {
            Some(ReconciliationStatus::Matched)
        } else if s == "mismatched"@ {
            Some(ReconciliationStatus::Mismatched)
        } else if s == "manual_review"@ {
            Some(ReconciliationStatus::ManualReview)
        } else if s == "resolved"@ {
            Some(ReconciliationStatus::Resolved)
        } else {
            None
        }
    }

    /// Parse a stored code; any other text is rejected.
    pub fn parse(s: &str) -> (r: Result<ReconciliationStatus, ParseReconciliationStatusError>)
        ensures
            match ReconciliationStatus::from_code(s@) {
                Some(st) => r == Ok::<ReconciliationStatus, ParseReconciliationStatusError>(st),
                None => r == Err::<ReconciliationStatus, ParseReconciliationStatusError>(
                    ParseReconciliationStatusError,
                ),
            },
    {
        if text_is(s, "pending") {
            Ok(ReconciliationStatus::Pending)
        } else if text_is(s, "matched") {
            Ok(ReconciliationStatus::Matched)
        } else if text_is(s, "mismatched") {
            Ok(ReconciliationStatus::Mismatched)
        } else if text_is(s, "manual_review") {
            Ok(ReconciliationStatus::ManualReview)
        } else if text_is(s, "resolved") {
            Ok(ReconciliationStatus::Resolved)
        } else {
            Err(ParseReconciliationStatusError)
        }
    }

    /// The stored code of this status.
    pub fn to_string(&self) -> (r: String)
        ensures
            r@ == self.code(),
    {
        match self {
            ReconciliationStatus::Pending => owned("pending"),
            ReconciliationStatus::Matched => owned("matched"),
            ReconciliationStatus::Mismatched => owned("mismatched"),
            ReconciliationStatus::ManualReview => owned("manual_review"),
            ReconciliationStatus::Resolved => owned("resolved"),
        }
    }
}

impl std::str::FromStr for ReconciliationStatus {
    type Err = ParseReconciliationStatusError;

    fn from_str(s: &str) -> (r: Result<Self, Self::Err>)
        ensures
            match ReconciliationStatus::from_code(s@) {
                Some(st) => r == Ok::<ReconciliationStatus, ParseReconciliationStatusError>(st),
                None => r == Err::<ReconciliationStatus, ParseReconciliationStatusError>(
                    ParseReconciliationStatusError,
                ),
            },
    {
        ReconciliationStatus::parse(s)
    }
}

/// Parsing the code of a status gives the status back.
pub proof fn lemma_reconciliation_status_round_trip(x: ReconciliationStatus)
    ensures
        ReconciliationStatus::from_code(x.code()) == Some(x),
{
    reveal_strlit("pending");
    reveal_strlit("matched");
    reveal_strlit("mismatched");
    reveal_strlit("manual_review");
    reveal_strlit("resolved");
    assert("pending"@.len() == 7);
    assert("matched"@.len() == 7);
    assert("mismatched"@.len() == 10);
    assert("manual_review"@.len() == 13);
    assert("resolved"@.len() == 8);
    assert("pending"@[0] != "matched"@[0]);
}

/// Source of a reconciliation record.
#[derive(Clone, Copy, PartialEq, Eq, Structural, Debug)]
pub enum ReconciliationSource {
    Stellar,
    Bank,
    Manual,
}

/// Status of a submitted on-chain transaction.
#[derive(Clone, Copy, PartialEq, Eq, Structural, Debug)]
pub enum TransactionStatus {
    PENDING,
    CONFIRMED,
    FAILED,
}

/// What a rate limit is counted per.
#[derive(Clone, Copy, PartialEq, Eq, Structural, Debug)]
pub enum RateLimitScope {
    Ip,
    User,
    ApiKey,
}

/// A user's wallet address.
#[derive(Clone, PartialEq, Eq, Debug)]
pub struct Wallet {
    pub user_id: String,
    pub address: String,
}

/// A request limit for the endpoints under a path prefix.
#[derive(Clone, PartialEq, Eq, Debug)]
pub struct EndpointRateLimitConfig {
    pub path_prefix: String,
    pub window_ms: u64,
    pub max_requests: u32,
}

/// Rate limiting settings.
#[derive(Clone, PartialEq, Eq, Debug)]
pub struct RateLimitConfig {
    pub window_ms: u64,
    pub max_requests: u32,
    pub scope: RateLimitScope,
    /// Per-endpoint limits (none when absent from the settings).
    pub endpoint_limits: Vec<EndpointRateLimitConfig>,
    /// Whether admins are exempt (`default_bypass_admin` when absent).
    pub bypass_admin: bool,
}

/// Outcome of a transaction risk check.
#[derive(Clone, PartialEq, Eq, Debug)]
pub struct TransactionRiskAssessment {
    pub user_id: String,
    pub address: String,
    pub amount: i64,
    pub risk_score: u8,
    pub risk_level: RiskLevel,
    pub sanctions_match: bool,
    pub velocity_limit_exceeded: bool,
    pub reasons: Vec<String>,
}

/// A signed transaction and its submission status.
#[derive(Clone, PartialEq, Eq, Debug)]
pub struct SignedTransactionResponse {
    pub tx_hash: String,
    pub status: TransactionStatus,
}

/// Metadata of an uploaded file.
#[derive(Clone, PartialEq, Eq, Debug)]
pub struct FileUploadResponseDto {
    pub file_id: String,
    pub original_name: String,
    pub mime_type: String,
    pub size: u64,
    pub url: String,
}

/// Default page size of audit-log queries.
pub fn default_limit() -> (r: i64)
    ensures
        r == 50,
{
    50
}

/// By default admins are exempt from rate limits.
pub fn default_bypass_admin() -> (r: bool)
    ensures
        r,
{
    true
}

} // verus!
