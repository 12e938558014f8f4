//! The router's connector-agnostic records.

use core::marker::PhantomData;
use vstd::prelude::*;
use crate::api;
use crate::consts::NO_ERROR_CODE;
use crate::enums;

verus! {

/// Credential a merchant has configured for a connector.
#[derive(Debug, PartialEq, Eq)]
pub enum ConnectorAuthType {
    HeaderKey { api_key: String },
    BodyKey { api_key: String, key1: String },
    SignatureKey { api_key: String, key1: String, api_secret: String },
}

/// What a connector may keep for itself in a payment's metadata.
#[derive(Debug, PartialEq, Eq)]
pub struct PaymentMetadata {
    /// Reference to a payment source the gateway created earlier.
    pub session_id: Option<String>,
    /// Proof that the cardholder passed 3-D Secure.
    pub verification_token: Option<String>,
}

/// What the router asks for when it authorizes a payment.
#[derive(Debug, PartialEq, Eq)]
pub struct PaymentsAuthorizeData {
    /// Amount in the minor unit of `currency`.
    pub amount: i64,
    pub currency: enums::Currency,
    /// `None` stands for automatic capture.
    pub capture_method: Option<enums::CaptureMethod>,
    pub metadata: Option<PaymentMetadata>,
}

/// What the router asks for when it refunds a payment.
#[derive(Debug, PartialEq, Eq)]
pub struct RefundsData {
    /// The gateway's identifier of the payment to refund.
    pub connector_transaction_id: String,
    /// Amount in the minor unit of `currency`.
    pub amount: i64,
    pub currency: enums::Currency,
}

/// The mathematical value of a `Result` whose two sides have one.
pub open spec fn result_view<T: View, E: View>(result: Result<T, E>) -> Result<T::V, E::V> {
    match result {
        Ok(value) => Ok(value@),
        Err(error) => Err(error@),
    }
}

/// Where the cardholder is sent when a payment needs a redirect.
#[derive(Debug, PartialEq, Eq)]
pub struct RedirectForm {
    pub url: String,
}

/// Mathematical value of a [`RedirectForm`].
pub struct RedirectFormView {
    pub url: Seq<char>,
}

impl View for RedirectForm {
    type V = RedirectFormView;

    open spec fn view(&self) -> RedirectFormView {
        RedirectFormView { url: self.url@ }
    }
}

/// How a connector refers to the transaction it created.
#[derive(Debug, PartialEq, Eq)]
pub enum ResponseId {
    ConnectorTransactionId(String),
    EncodedData(String),
    NoResponseId,
}

/// Mathematical value of a [`ResponseId`].
pub enum ResponseIdView {
    ConnectorTransactionId(Seq<char>),
    EncodedData(Seq<char>),
    NoResponseId,
}

impl View for ResponseId {
    type V = ResponseIdView;

    open spec fn view(&self) -> ResponseIdView {
        match self {
            ResponseId::ConnectorTransactionId(id) => ResponseIdView::ConnectorTransactionId(id@),
            ResponseId::EncodedData(data) => ResponseIdView::EncodedData(data@),
            ResponseId::NoResponseId => ResponseIdView::NoResponseId,
        }
    }
}

/// What a connector answered to a payment call that went through.
#[derive(Debug, PartialEq, Eq)]
pub enum PaymentsResponseData {
    TransactionResponse {
        resource_id: ResponseId,
        redirection_data: Option<RedirectForm>,
        redirect: bool,
        mandate_reference: Option<String>,
        connector_metadata: Option<String>,
    },
    SessionResponse { session_token: String },
}

/// Mathematical value of a [`PaymentsResponseData`].
pub enum PaymentsResponseDataView {
    TransactionResponse {
        resource_id: ResponseIdView,
        redirection_data: Option<RedirectFormView>,
        redirect: bool,
        mandate_reference: Option<Seq<char>>,
        connector_metadata: Option<Seq<char>>,
    },
    SessionResponse { session_token: Seq<char> },
}

impl View for PaymentsResponseData {
    type V = PaymentsResponseDataView;

    open spec fn view(&self) -> PaymentsResponseDataView {
        match self {
            PaymentsResponseData::TransactionResponse {
                resource_id,
                redirection_data,
                redirect,
                mandate_reference,
                connector_metadata,
            } => PaymentsResponseDataView::TransactionResponse {
                resource_id: resource_id@,
                redirection_data: match redirection_data {
                    Some(form) => Some(form@),
                    None => None,
                },
                redirect: *redirect,
                mandate_reference: mandate_reference.deep_view(),
                connector_metadata: connector_metadata.deep_view(),
            },
            PaymentsResponseData::SessionResponse { session_token } => {
                PaymentsResponseDataView::SessionResponse { session_token: session_token@ }
            },
        }
    }
}

impl PaymentsResponseDataView {
    /// The answer to a charge that needs no redirect and carries nothing
    /// but the gateway's identifier `id` of the payment.
    pub open spec fn plain_transaction(id: Seq<char>) -> PaymentsResponseDataView {
        PaymentsResponseDataView::TransactionResponse {
            resource_id: ResponseIdView::ConnectorTransactionId(id),
            redirection_data: None,
            redirect: false,
            mandate_reference: None,
            connector_metadata: None,
        }
    }
}

/// What a connector answered to a call that failed.
#[derive(Debug, PartialEq, Eq)]
pub struct ErrorResponse {
    pub code: String,
    pub message: String,
    pub reason: Option<String>,
    /// HTTP status the gateway answered with.
    pub status_code: u16,
}

/// Mathematical value of an [`ErrorResponse`].
pub struct ErrorResponseView {
    pub code: Seq<char>,
    pub message: Seq<char>,
    pub reason: Option<Seq<char>>,
    pub status_code: u16,
}

impl ErrorResponseView {
    /// The failure recorded when the gateway declined and gave no detail
    /// that could be passed on: the agreed code for "no code", an empty
    /// message, no reason, and the HTTP status of the answer.
    pub open spec fn without_detail(status_code: u16) -> ErrorResponseView {
        ErrorResponseView {
            code: NO_ERROR_CODE@,
            message: Seq::empty(),
            reason: None,
            status_code,
        }
    }
}

impl ErrorResponse {
    /// Builds the failure that [`ErrorResponseView::without_detail`] describes.
    pub fn without_detail(status_code: u16) -> (error: ErrorResponse)
        ensures
            error@ == ErrorResponseView::without_detail(status_code),
    {
        ErrorResponse {
            code: NO_ERROR_CODE.to_string(),
            message: String::new(),
            reason: None,
            status_code,
        }
    }
}

impl View for ErrorResponse {
    type V = ErrorResponseView;

    open spec fn view(&self) -> ErrorResponseView {
        ErrorResponseView {
            code: self.code@,
            message: self.message@,
            reason: self.reason.deep_view(),
            status_code: self.status_code,
        }
    }
}

/// What a connector answered to a refund call that went through.
#[derive(Debug, PartialEq, Eq)]
pub struct RefundsResponseData {
    pub connector_refund_id: String,
    pub refund_status: enums::RefundStatus,
}

/// Mathematical value of a [`RefundsResponseData`].
pub struct RefundsResponseDataView {
    pub connector_refund_id: Seq<char>,
    pub refund_status: enums::RefundStatus,
}

impl View for RefundsResponseData {
    type V = RefundsResponseDataView;

    open spec fn view(&self) -> RefundsResponseDataView {
        RefundsResponseDataView {
            connector_refund_id: self.connector_refund_id@,
            refund_status: self.refund_status,
        }
    }
}

/// Everything the router knows of one call to a connector: who makes it,
/// what is asked, and, once the connector has answered, what came of it.
#[derive(Debug, PartialEq, Eq)]
pub struct RouterData<Flow, Request, Response> {
    pub flow: PhantomData<Flow>,
    pub payment_id: String,
    pub attempt_id: String,
    pub status: enums::AttemptStatus,
    pub payment_method: enums::PaymentMethodType,
    pub auth_type: enums::AuthenticationType,
    pub connector_auth_type: ConnectorAuthType,
    pub request: Request,
    pub response: Result<Response, ErrorResponse>,
}

impl<Flow, Request, Response> RouterData<Flow, Request, Response> {
    /// Whether `self` and `other` agree in everything but the attempt's
    /// status and the connector's answer.
    pub open spec fn same_call_as(self, other: Self) -> bool {
        &&& self.flow == other.flow
        &&& self.payment_id == other.payment_id
        &&& self.attempt_id == other.attempt_id
        &&& self.payment_method == other.payment_method
        &&& self.auth_type == other.auth_type
        &&& self.connector_auth_type == other.connector_auth_type
        &&& self.request == other.request
    }
}

/// A connector's parsed answer together with the call it answers.
#[derive(Debug, PartialEq, Eq)]
pub struct ResponseRouterData<Flow, R, Request, Response> {
    pub response: R,
    pub data: RouterData<Flow, Request, Response>,
    /// HTTP status the gateway answered with.
    pub http_code: u16,
}

pub type PaymentsAuthorizeRouterData = RouterData<
    api::Authorize,
    PaymentsAuthorizeData,
    PaymentsResponseData,
>;

pub type RefundsRouterData<Flow> = RouterData<Flow, RefundsData, RefundsResponseData>;

pub type RefundsResponseRouterData<Flow, R> = ResponseRouterData<
    Flow,
    R,
    RefundsData,
    RefundsResponseData,
>;

} // verus!
