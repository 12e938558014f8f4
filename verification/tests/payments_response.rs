use core::marker::PhantomData;

use square_connector::api::Authorize;
use square_connector::consts::NO_ERROR_CODE;
use square_connector::enums::{
    AttemptStatus, AuthenticationType, CaptureMethod, Currency, PaymentMethodType,
};
use square_connector::money::AmountMoney;
use square_connector::payments::{
    ApplicationDetails, Card, CardDetails, CardPaymentTimeline, Payment, PaymentMethodOptions,
    ProcessingFee, RiskEvaluation, SquareErrorResponse, SquarePaymentsResponse,
};
use square_connector::status::SquarePaymentStatus;
use square_connector::types::{
    ConnectorAuthType, ErrorResponse, PaymentMetadata, PaymentsAuthorizeData,
    PaymentsAuthorizeRouterData, PaymentsResponseData, ResponseId, ResponseRouterData, RouterData,
};

fn pending_call() -> PaymentsAuthorizeRouterData {
    RouterData {
        flow: PhantomData::<Authorize>,
        payment_id: "pay_7".to_string(),
        attempt_id: "pay_7_1".to_string(),
        status: AttemptStatus::Authorized,
        payment_method: PaymentMethodType::Card,
        auth_type: AuthenticationType::ThreeDs,
        connector_auth_type: ConnectorAuthType::BodyKey {
            api_key: "token".to_string(),
            key1: "2022-09-21".to_string(),
        },
        request: PaymentsAuthorizeData {
            amount: 250,
            currency: Currency::EUR,
            capture_method: Some(CaptureMethod::Manual),
            metadata: Some(PaymentMetadata {
                session_id: Some("cnon:card-nonce-ok".to_string()),
                verification_token: Some("verf:token".to_string()),
            }),
        },
        response: Err(ErrorResponse {
            code: "earlier".to_string(),
            message: "earlier".to_string(),
            reason: Some("earlier".to_string()),
            status_code: 1,
        }),
    }
}

fn payment(id: &str, status: SquarePaymentStatus) -> Payment {
    Payment {
        id: id.to_string(),
        created_at: Some("2023-01-10T10:00:00.000Z".to_string()),
        updated_at: None,
        amount_money: AmountMoney { amount: 250, currency: Currency::EUR },
        app_fee_money: None,
        delay_duration: None,
        source_type: Some("CARD".to_string()),
        card_details: CardDetails {
            status,
            card: Some(Card {
                card_brand: Some("VISA".to_string()),
                last_4: Some("1111".to_string()),
                exp_month: Some(11),
                exp_year: Some(2030),
                fingerprint: None,
                card_type: Some("CREDIT".to_string()),
                prepaid_type: None,
                bin: Some("411111".to_string()),
            }),
            entry_method: Some("KEYED".to_string()),
            cvv_status: None,
            avs_status: None,
            statement_description: None,
            auth_result_code: None,
            card_payment_timeline: Some(CardPaymentTimeline {
                authorized_at: Some("2023-01-10T10:00:00.000Z".to_string()),
                captured_at: None,
            }),
        },
        location_id: None,
        order_id: None,
        reference_id: None,
        risk_evaluation: Some(RiskEvaluation {
            created_at: None,
            risk_level: Some("NORMAL".to_string()),
        }),
        note: None,
        customer_id: None,
        total_money: None,
        approved_money: None,
        receipt_number: None,
        receipt_url: None,
        delay_action: None,
        delayed_until: None,
        application_details: Some(ApplicationDetails::new(
            Some("ECOMMERCE_API".to_string()),
            Some("sq0ids-app".to_string()),
        )),
        version_token: None,
        processing_key: Some(vec![ProcessingFee {
            effective_at: "2023-01-10T12:00:00.000Z".to_string(),
            amount_money: AmountMoney { amount: 8, currency: Currency::EUR },
        }]),
    }
}

fn gateway_error() -> SquareErrorResponse {
    SquareErrorResponse {
        category: "PAYMENT_METHOD_ERROR".to_string(),
        code: "CARD_DECLINED".to_string(),
        detail: Some("Authorization error: 'CARD_DECLINED'".to_string()),
        field: None,
    }
}

fn record(
    response: SquarePaymentsResponse,
    http_code: u16,
) -> PaymentsAuthorizeRouterData {
    RouterData::try_from(ResponseRouterData { response, data: pending_call(), http_code }).unwrap()
}

fn failure_without_detail(status_code: u16) -> ErrorResponse {
    ErrorResponse {
        code: "No error code".to_string(),
        message: String::new(),
        reason: None,
        status_code,
    }
}

#[test]
fn absent_payment_is_a_failed_authentication() {
    for http_code in [0u16, 200, 400, 401, 402, 500, 503, u16::MAX] {
        let bare = record(SquarePaymentsResponse { payment: None, errors: None }, http_code);
        assert_eq!(bare.status, AttemptStatus::AuthenticationFailed);
        assert_eq!(bare.response, Err(failure_without_detail(http_code)));

        let empty =
            record(SquarePaymentsResponse { payment: None, errors: Some(vec![]) }, http_code);
        assert_eq!(empty.status, AttemptStatus::AuthenticationFailed);
        assert_eq!(empty.response, Err(failure_without_detail(http_code)));

        let listed = record(
            SquarePaymentsResponse { payment: None, errors: Some(vec![gateway_error()]) },
            http_code,
        );
        assert_eq!(listed.status, AttemptStatus::AuthenticationFailed);
        assert_eq!(listed.response, Err(failure_without_detail(http_code)));
    }
}

#[test]
fn default_envelope_has_no_payment() {
    let recorded = record(SquarePaymentsResponse::default(), 404);
    assert_eq!(recorded.status, AttemptStatus::AuthenticationFailed);
    assert_eq!(recorded.response, Err(failure_without_detail(404)));
}

#[test]
fn captured_payment_is_charged_under_its_identifier() {
    let recorded = record(
        SquarePaymentsResponse {
            payment: Some(payment("GQTFp1ZlXdpoW4o6eGiZhbjosiDFf", SquarePaymentStatus::Captured)),
            errors: None,
        },
        200,
    );
    assert_eq!(recorded.status, AttemptStatus::Charged);
    assert_eq!(
        recorded.response,
        Ok(PaymentsResponseData::TransactionResponse {
            resource_id: ResponseId::ConnectorTransactionId(
                "GQTFp1ZlXdpoW4o6eGiZhbjosiDFf".to_string()
            ),
            redirection_data: None,
            redirect: false,
            mandate_reference: None,
            connector_metadata: None,
        })
    );
}

#[test]
fn present_payment_takes_the_status_of_its_card() {
    let cases = [
        (SquarePaymentStatus::Captured, AttemptStatus::Charged),
        (SquarePaymentStatus::Voided, AttemptStatus::Voided),
        (SquarePaymentStatus::Failed, AttemptStatus::Failure),
        (SquarePaymentStatus::Authorized, AttemptStatus::Authorized),
    ];
    for (wire, canonical) in cases {
        let recorded = record(
            SquarePaymentsResponse {
                payment: Some(payment("KkAkhdMsgzn59SM8A89WgKwekxLZY", wire)),
                errors: None,
            },
            200,
        );
        assert_eq!(recorded.status, canonical);
        assert!(recorded.response.is_ok());
    }
}

#[test]
fn payment_wins_over_errors_listed_beside_it() {
    let recorded = record(
        SquarePaymentsResponse {
            payment: Some(payment("bP9mAsEMYPUGjjGNaNO5ZDVyLhSZY", SquarePaymentStatus::Failed)),
            errors: Some(vec![gateway_error()]),
        },
        402,
    );
    assert_eq!(recorded.status, AttemptStatus::Failure);
    assert_eq!(
        recorded.response,
        Ok(PaymentsResponseData::TransactionResponse {
            resource_id: ResponseId::ConnectorTransactionId(
                "bP9mAsEMYPUGjjGNaNO5ZDVyLhSZY".to_string()
            ),
            redirection_data: None,
            redirect: false,
            mandate_reference: None,
            connector_metadata: None,
        })
    );
}

#[test]
fn recording_keeps_the_call() {
    let before = pending_call();
    for response in [
        SquarePaymentsResponse { payment: None, errors: None },
        SquarePaymentsResponse {
            payment: Some(payment("Xx4QAEbCdvGLVlbCMk7GLqUeYsTZY", SquarePaymentStatus::Captured)),
            errors: None,
        },
    ] {
        let after = record(response, 200);
        assert_eq!(after.flow, before.flow);
        assert_eq!(after.payment_id, before.payment_id);
        assert_eq!(after.attempt_id, before.attempt_id);
        assert_eq!(after.payment_method, before.payment_method);
        assert_eq!(after.auth_type, before.auth_type);
        assert_eq!(after.connector_auth_type, before.connector_auth_type);
        assert_eq!(after.request, before.request);
    }
}

#[test]
fn failure_without_detail_carries_the_agreed_code() {
    assert_eq!(NO_ERROR_CODE, "No error code");
    assert_eq!(ErrorResponse::without_detail(418), failure_without_detail(418));
    assert_eq!(ErrorResponse::without_detail(0).status_code, 0);
}

#[test]
fn application_details_hand_back_what_they_were_given() {
    let both = ApplicationDetails::new(Some("ECOMMERCE_API".to_string()), Some("app".to_string()));
    assert_eq!(both.square_product(), &Some("ECOMMERCE_API".to_string()));
    assert_eq!(both.application_id(), &Some("app".to_string()));
    let none = ApplicationDetails::new(None, None);
    assert_eq!(none.square_product(), &None);
    assert_eq!(none.application_id(), &None);
    let one = ApplicationDetails::new(None, Some("app".to_string()));
    assert_eq!(one.square_product(), &None);
    assert_eq!(one.application_id(), &Some("app".to_string()));
}

#[test]
fn payment_method_options_hold_the_three_ds_flag() {
    assert!(PaymentMethodOptions { three_ds: true }.three_ds);
    assert!(!PaymentMethodOptions { three_ds: false }.three_ds);
}

#[test]
fn default_error_entry_is_empty() {
    assert_eq!(
        SquareErrorResponse::default(),
        SquareErrorResponse {
            category: String::new(),
            code: String::new(),
            detail: None,
            field: None,
        }
    );
    assert_eq!(
        ProcessingFee::default(),
        ProcessingFee {
            effective_at: String::new(),
            amount_money: AmountMoney { amount: 0, currency: Currency::USD },
        }
    );
}
