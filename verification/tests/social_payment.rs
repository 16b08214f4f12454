use zaps::social_payment::{SocialError, SocialPaymentContract};

#[test]
fn comment_payment_accepts_valid_comment() {
    let contract = SocialPaymentContract;
    let tx_id = String::from("payment-123");
    let comment = String::from("This is a valid comment.");
    let event = contract.comment_payment(tx_id, comment).unwrap();
    assert_eq!(event.tx_id, "payment-123");
    assert_eq!(event.comment, "This is a valid comment.");
}

#[test]
#[should_panic(expected = "comment exceeds maximum length")]
fn comment_payment_rejects_overlong_comment() {
    let contract = SocialPaymentContract;
    let tx_id = String::from("payment-456");
    let long_text = "x".repeat(121);
    if let Err(e) = contract.comment_payment(tx_id, long_text) {
        panic!("{}", e.message());
    }
}

#[test]
fn comment_of_exactly_120_characters_is_accepted() {
    let contract = SocialPaymentContract;
    assert!(contract.comment_payment(String::from("p"), "y".repeat(120)).is_ok());
}

#[test]
fn comment_length_counts_characters() {
    let contract = SocialPaymentContract;
    // 41 three-byte characters: 123 bytes but only 41 characters.
    let text = "€".repeat(41);
    assert_eq!(text.len(), 123);
    let event = contract.comment_payment(String::from("p"), text.clone()).unwrap();
    assert_eq!(event.comment, text);
    // 121 two-byte characters are one character too many.
    assert_eq!(
        contract.comment_payment(String::from("p"), "é".repeat(121)),
        Err(SocialError::CommentTooLong)
    );
}
