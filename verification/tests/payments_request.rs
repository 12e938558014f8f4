use core::marker::PhantomData;

use square_connector::enums::{
    AttemptStatus, AuthenticationType, CaptureMethod, Currency, PaymentMethodType,
};
use square_connector::errors::ConnectorError;
use square_connector::money::AmountMoney;
use square_connector::payments::{SquarePaymentsRequest, VERIFICATION_TOKEN_FIELD};
use square_connector::types::{
    ConnectorAuthType, ErrorResponse, PaymentMetadata, PaymentsAuthorizeData,
    PaymentsAuthorizeRouterData, RouterData,
};

fn authorize(
    payment_method: PaymentMethodType,
    auth_type: AuthenticationType,
    capture_method: Option<CaptureMethod>,
    metadata: Option<PaymentMetadata>,
) -> PaymentsAuthorizeRouterData {
    RouterData {
        flow: PhantomData,
        payment_id: "pay_1".to_string(),
        attempt_id: "pay_1_1".to_string(),
        status: AttemptStatus::Authorized,
        payment_method,
        auth_type,
        connector_auth_type: ConnectorAuthType::BodyKey {
            api_key: "token".to_string(),
            key1: "2022-09-21".to_string(),
        },
        request: PaymentsAuthorizeData {
            amount: 1050,
            currency: Currency::USD,
            capture_method,
            metadata,
        },
        response: Err(ErrorResponse {
            code: String::new(),
            message: String::new(),
            reason: None,
            status_code: 0,
        }),
    }
}

fn metadata(session_id: Option<&str>, verification_token: Option<&str>) -> Option<PaymentMetadata> {
    Some(PaymentMetadata {
        session_id: session_id.map(|s| s.to_string()),
        verification_token: verification_token.map(|s| s.to_string()),
    })
}

fn missing_token() -> ConnectorError {
    ConnectorError::MissingRequiredField { field_name: "verification_token" }
}

#[test]
fn three_ds_card_without_token_is_rejected() {
    let item = authorize(
        PaymentMethodType::Card,
        AuthenticationType::ThreeDs,
        Some(CaptureMethod::Automatic),
        metadata(Some("cnon:card-nonce-ok"), None),
    );
    assert_eq!(SquarePaymentsRequest::try_from(&item), Err(missing_token()));
}

#[test]
fn three_ds_card_without_metadata_is_rejected() {
    let item =
        authorize(PaymentMethodType::Card, AuthenticationType::ThreeDs, None, None);
    assert_eq!(SquarePaymentsRequest::try_from(&item), Err(missing_token()));
    assert_eq!(
        SquarePaymentsRequest::with_idempotency_key(&item, "k".to_string()),
        Err(missing_token())
    );
}

#[test]
fn missing_field_is_named_verification_token() {
    assert_eq!(VERIFICATION_TOKEN_FIELD, "verification_token");
}

#[test]
fn three_ds_card_with_token_is_built() {
    let item = authorize(
        PaymentMethodType::Card,
        AuthenticationType::ThreeDs,
        Some(CaptureMethod::Automatic),
        metadata(Some("cnon:card-nonce-ok"), Some("verf:token")),
    );
    let request = SquarePaymentsRequest::try_from(&item).unwrap();
    assert_eq!(request.source_id, "cnon:card-nonce-ok");
    assert_eq!(request.verification_token, Some("verf:token".to_string()));
    assert_eq!(request.amount_money, AmountMoney { amount: 1050, currency: Currency::USD });
    assert!(request.autocomplete);
}

#[test]
fn without_three_ds_a_request_is_built_whatever_the_token() {
    for token in [None, Some("verf:token")] {
        for method in [
            PaymentMethodType::Card,
            PaymentMethodType::BankTransfer,
            PaymentMethodType::BankDebit,
            PaymentMethodType::PayLater,
            PaymentMethodType::Wallet,
        ] {
            let item = authorize(
                method,
                AuthenticationType::NoThreeDs,
                None,
                metadata(Some("cnon:card-nonce-ok"), token),
            );
            let request = SquarePaymentsRequest::try_from(&item).unwrap();
            assert_eq!(request.verification_token, token.map(|t| t.to_string()));
        }
    }
    let bare = authorize(PaymentMethodType::Card, AuthenticationType::NoThreeDs, None, None);
    assert!(SquarePaymentsRequest::try_from(&bare).is_ok());
}

#[test]
fn three_ds_is_not_enforced_for_other_payment_methods() {
    let item = authorize(PaymentMethodType::Wallet, AuthenticationType::ThreeDs, None, None);
    let request = SquarePaymentsRequest::try_from(&item).unwrap();
    assert_eq!(request.verification_token, None);
    assert!(!request.autocomplete);
}

#[test]
fn autocomplete_follows_payment_method_and_capture_method() {
    let cases = [
        (PaymentMethodType::Card, Some(CaptureMethod::Automatic), true),
        (PaymentMethodType::Card, None, true),
        (PaymentMethodType::Card, Some(CaptureMethod::Manual), false),
        (PaymentMethodType::Wallet, Some(CaptureMethod::Automatic), false),
        (PaymentMethodType::Wallet, None, false),
        (PaymentMethodType::BankDebit, Some(CaptureMethod::Manual), false),
        (PaymentMethodType::BankTransfer, None, false),
        (PaymentMethodType::PayLater, Some(CaptureMethod::Automatic), false),
    ];
    for (method, capture, expected) in cases {
        let item = authorize(method, AuthenticationType::NoThreeDs, capture, None);
        let request = SquarePaymentsRequest::with_idempotency_key(&item, "k".to_string()).unwrap();
        assert_eq!(request.autocomplete, expected);
    }
}

#[test]
fn source_id_is_empty_when_the_metadata_names_none() {
    let without_metadata =
        authorize(PaymentMethodType::Card, AuthenticationType::NoThreeDs, None, None);
    assert_eq!(SquarePaymentsRequest::try_from(&without_metadata).unwrap().source_id, "");
    let without_session = authorize(
        PaymentMethodType::Card,
        AuthenticationType::NoThreeDs,
        None,
        metadata(None, Some("verf:token")),
    );
    let request = SquarePaymentsRequest::try_from(&without_session).unwrap();
    assert_eq!(request.source_id, "");
    assert_eq!(request.verification_token, Some("verf:token".to_string()));
}

#[test]
fn with_idempotency_key_gives_the_whole_request() {
    let item = authorize(
        PaymentMethodType::Card,
        AuthenticationType::ThreeDs,
        Some(CaptureMethod::Manual),
        metadata(Some("ccof:customer-card-id-ok"), Some("verf:token")),
    );
    let request =
        SquarePaymentsRequest::with_idempotency_key(&item, "replayed-key".to_string()).unwrap();
    assert_eq!(
        request,
        SquarePaymentsRequest {
            source_id: "ccof:customer-card-id-ok".to_string(),
            idempotency_key: "replayed-key".to_string(),
            amount_money: AmountMoney { amount: 1050, currency: Currency::USD },
            autocomplete: false,
            verification_token: Some("verf:token".to_string()),
        }
    );
}

#[test]
fn try_from_agrees_with_with_idempotency_key_under_its_own_key() {
    let item = authorize(
        PaymentMethodType::Card,
        AuthenticationType::NoThreeDs,
        None,
        metadata(Some("cnon:card-nonce-ok"), None),
    );
    let drawn = SquarePaymentsRequest::try_from(&item).unwrap();
    let replayed =
        SquarePaymentsRequest::with_idempotency_key(&item, drawn.idempotency_key.clone()).unwrap();
    assert_eq!(drawn, replayed);
}

#[test]
fn two_builds_of_one_request_carry_different_keys() {
    let item = authorize(
        PaymentMethodType::Card,
        AuthenticationType::NoThreeDs,
        None,
        metadata(Some("cnon:card-nonce-ok"), None),
    );
    let first = SquarePaymentsRequest::try_from(&item).unwrap();
    let second = SquarePaymentsRequest::try_from(&item).unwrap();
    assert_ne!(first.idempotency_key, second.idempotency_key);
    assert_eq!(first.source_id, second.source_id);
    assert_eq!(first.amount_money, second.amount_money);
    assert_eq!(first.autocomplete, second.autocomplete);
    assert_eq!(first.verification_token, second.verification_token);
}

#[test]
fn drawn_key_is_a_hyphenated_random_uuid() {
    let item = authorize(PaymentMethodType::Card, AuthenticationType::NoThreeDs, None, None);
    for _ in 0..64 {
        let key = SquarePaymentsRequest::try_from(&item).unwrap().idempotency_key;
        let chars: Vec<char> = key.chars().collect();
        assert_eq!(chars.len(), 36);
        for (i, c) in chars.iter().enumerate() {
            if i == 8 || i == 13 || i == 18 || i == 23 {
                assert_eq!(*c, '-');
            } else {
                assert!(matches!(*c, '0'..='9' | 'a'..='f'));
            }
        }
        assert_eq!(chars[14], '4');
        assert!(matches!(chars[19], '8' | '9' | 'a' | 'b'));
        let parsed = uuid::Uuid::parse_str(&key).unwrap();
        assert_eq!(parsed.get_version_num(), 4);
        assert_eq!(parsed.to_string(), key);
    }
}

#[test]
fn default_request_is_empty() {
    assert_eq!(
        SquarePaymentsRequest::default(),
        SquarePaymentsRequest {
            source_id: String::new(),
            idempotency_key: String::new(),
            amount_money: AmountMoney { amount: 0, currency: Currency::USD },
            autocomplete: false,
            verification_token: None,
        }
    );
}
