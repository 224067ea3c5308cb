use axia_connector::codes::{Cardtype, Code, MsoftCode, ParseError, PhardCode};
use axia_connector::transformers::{AxiaPaymentStatus, AxiaRefundStatus};
use axia_connector::types::{is_payment_failure, is_refund_failure, AttemptStatus, RefundStatus};

#[test]
fn defaults_match_the_gateway_defaults() {
    assert_eq!(Code::default(), Code::Auth);
    assert_eq!(MsoftCode::default(), MsoftCode::IntSuccess);
    assert_eq!(Cardtype::default(), Cardtype::Visa);
    assert_eq!(PhardCode::default(), PhardCode::Success);
}

#[test]
fn display_forms_are_variant_names() {
    assert_eq!(Code::Deny.to_string(), "Deny");
    assert_eq!(Code::Timeout.to_string(), "Timeout");
    assert_eq!(PhardCode::AlreadyReversed.to_string(), "AlreadyReversed");
    assert_eq!(PhardCode::RetryForceInsert.to_string(), "RetryForceInsert");
    assert_eq!(Cardtype::Visadebit.to_string(), "Visadebit");
}

#[test]
fn display_forms_read_back() {
    let codes = [
        Code::Auth,
        Code::Success,
        Code::Call,
        Code::Deny,
        Code::Dupl,
        Code::Pkup,
        Code::Retry,
        Code::Setup,
        Code::Timeout,
    ];
    for c in codes {
        assert_eq!(Code::from_str(&c.to_string()), Ok(c));
    }
    let phard = [
        PhardCode::Success,
        PhardCode::Genericfail,
        PhardCode::InsufficientFunds,
        PhardCode::AlreadyReversed,
        PhardCode::Retry,
        PhardCode::RetryForceInsert,
    ];
    for p in phard {
        assert_eq!(PhardCode::from_str(&p.to_string()), Ok(p));
    }
    assert_eq!(Cardtype::from_str("Amex"), Ok(Cardtype::Amex));
}

#[test]
fn internal_check_codes_display_in_snake_case() {
    assert_eq!(MsoftCode::AcctTransnotallowedPort.to_string(), "acct_transnotallowed_port");
    assert_eq!(MsoftCode::IntSuccess.to_string(), "int_success");
    assert_eq!(MsoftCode::Fraudautodeny.to_string(), "fraudautodeny");
    assert_eq!(MsoftCode::from_str("db_fail"), Ok(MsoftCode::DbFail));
    assert_eq!(MsoftCode::from_str("DB_FAIL"), Err(ParseError::VariantNotFound));
    for c in [MsoftCode::Unknown, MsoftCode::DataNochanges, MsoftCode::LicUsers] {
        assert_eq!(MsoftCode::from_str(&c.to_string()), Ok(c));
    }
}

#[test]
fn wire_forms_are_not_display_forms() {
    assert_eq!(Code::from_str("AUTH"), Err(ParseError::VariantNotFound));
    assert_eq!(PhardCode::from_str("ALREADY_REVERSED"), Err(ParseError::VariantNotFound));
    assert_eq!(Cardtype::from_str(""), Err(ParseError::VariantNotFound));
}

#[test]
fn approved_transaction_is_charged() {
    let s = AttemptStatus::from(AxiaPaymentStatus(Code::Auth, Some(PhardCode::Success)));
    assert_eq!(s, AttemptStatus::Charged);
}

#[test]
fn reversed_transaction_is_voided() {
    let s = AttemptStatus::from(AxiaPaymentStatus(Code::Auth, Some(PhardCode::AlreadyReversed)));
    assert_eq!(s, AttemptStatus::Voided);
}

#[test]
fn other_codes_fail_the_payment() {
    assert_eq!(
        AttemptStatus::from(AxiaPaymentStatus(Code::Auth, Some(PhardCode::Genericfail))),
        AttemptStatus::Failure
    );
    assert_eq!(AttemptStatus::from(AxiaPaymentStatus(Code::Auth, None)), AttemptStatus::Failure);
    assert_eq!(
        AttemptStatus::from(AxiaPaymentStatus(Code::Deny, Some(PhardCode::Success))),
        AttemptStatus::Failure
    );
    assert_eq!(
        AttemptStatus::from(AxiaPaymentStatus(Code::Success, None)),
        AttemptStatus::Failure
    );
}

#[test]
fn refund_succeeds_only_when_approved() {
    assert_eq!(
        RefundStatus::from(AxiaRefundStatus(Code::Auth, Some(PhardCode::Success))),
        RefundStatus::Success
    );
    assert_eq!(
        RefundStatus::from(AxiaRefundStatus(Code::Auth, Some(PhardCode::AlreadyReversed))),
        RefundStatus::Failure
    );
    assert_eq!(RefundStatus::from(AxiaRefundStatus(Code::Auth, None)), RefundStatus::Failure);
    assert_eq!(
        RefundStatus::from(AxiaRefundStatus(Code::Retry, Some(PhardCode::Success))),
        RefundStatus::Failure
    );
}

#[test]
fn failure_statuses() {
    assert!(is_payment_failure(AttemptStatus::Failure));
    assert!(is_payment_failure(AttemptStatus::AuthorizationFailed));
    assert!(is_payment_failure(AttemptStatus::Expired));
    assert!(!is_payment_failure(AttemptStatus::Charged));
    assert!(!is_payment_failure(AttemptStatus::Voided));
    assert!(!is_payment_failure(AttemptStatus::Pending));
    assert!(is_refund_failure(RefundStatus::Failure));
    assert!(is_refund_failure(RefundStatus::TransactionFailure));
    assert!(!is_refund_failure(RefundStatus::Success));
    assert!(!is_refund_failure(RefundStatus::Pending));
}
