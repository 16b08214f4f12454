//! The social-payment contract: payments visible to the public, to friends or
//! to the two parties only, and comments on payments.
use vstd::prelude::*;
use vstd::string::StrSliceExecFns;

verus! {

/// Who may see a social payment.
#[derive(Clone, Copy, PartialEq, Eq, Structural, Debug)]
pub enum Visibility {
    Public,
    Friends,
    Private,
}

/// Longest comment accepted, in characters.
pub const MAX_COMMENT_LEN: usize = 120;

/// The event published when a comment is posted on a payment.
#[derive(Clone, PartialEq, Eq, Debug)]
pub struct PaymentCommented {
    /// The payment commented on.
    pub tx_id: String,
    /// The comment's text.
    pub comment: String,
}

/// Reasons for which the social-payment contract rejects a call.
#[derive(Clone, Copy, PartialEq, Eq, Structural, Debug)]
pub enum SocialError {
    CommentTooLong,
}

impl SocialError {
    /// The message with which the contract aborts on this error.
    pub fn message(&self) -> (r: String)
        ensures
            r@ == "comment exceeds maximum length of 120 characters"@,
    {
        crate::text::owned("comment exceeds maximum length of 120 characters")
    }
}

/// The social-payment contract.
#[derive(Clone, Copy, PartialEq, Eq, Structural, Debug)]
pub struct SocialPaymentContract;

impl SocialPaymentContract {
    /// Comment on payment `tx_id`: a comment of at most 120 characters yields
    /// the `PaymentCommented` event with the payment and the comment; a longer
    /// one is rejected.
    pub fn comment_payment(&self, tx_id: String, comment: String) -> (r: Result<
        PaymentCommented,
        SocialError,
    >)
        ensures
            r is Err <==> comment@.len() > MAX_COMMENT_LEN,
            r matches Err(e) ==> e == SocialError::CommentTooLong,
            r matches Ok(ev) ==> ev.tx_id@ == tx_id@ && ev.comment@ == comment@,
    {
        let len = comment.as_str().unicode_len();
        if len > MAX_COMMENT_LEN {
            return Err(SocialError::CommentTooLong);
        }
        Ok(PaymentCommented { tx_id, comment })
    }
}

} // verus!
