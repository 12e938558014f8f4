//! Creating a payment: the request the gateway takes and the answer it gives.

use vstd::prelude::*;
use vstd::std_specs::convert::TryFromSpecImpl;
use crate::enums::{AttemptStatus, AuthenticationType, CaptureMethod, PaymentMethodType};
use crate::errors::{ConnectorError, ConnectorErrorView, ParsingError};
use crate::idempotency::{fresh_idempotency_key, is_random_uuid_text};
use crate::money::AmountMoney;
use crate::status::SquarePaymentStatus;
use crate::types::{
    result_view, ErrorResponse, ErrorResponseView, PaymentsAuthorizeRouterData,
    PaymentsResponseData, PaymentsResponseDataView, ResponseId, ResponseRouterData, RouterData,
};

verus! {

/// Name of the request field that carries the proof of 3-D Secure.
pub const VERIFICATION_TOKEN_FIELD: &'static str = "verification_token";

/// Whether a merchant's payment method asks for 3-D Secure (`3d_required`
/// on the wire).
#[derive(Clone, Copy, Debug, PartialEq, Eq, Structural)]
pub struct PaymentMethodOptions {
    pub three_ds: bool,
}

/// Body of the call that creates a payment.
#[derive(Debug, Default, PartialEq, Eq)]
pub struct SquarePaymentsRequest {
    pub source_id: String,
    pub idempotency_key: String,
    pub amount_money: AmountMoney,
    pub autocomplete: bool,
    pub verification_token: Option<String>,
}

/// Mathematical value of a [`SquarePaymentsRequest`].
pub struct SquarePaymentsRequestView {
    pub source_id: Seq<char>,
    pub idempotency_key: Seq<char>,
    pub amount_money: AmountMoney,
    pub autocomplete: bool,
    pub verification_token: Option<Seq<char>>,
}

impl View for SquarePaymentsRequest {
    type V = SquarePaymentsRequestView;

    open spec fn view(&self) -> SquarePaymentsRequestView {
        SquarePaymentsRequestView {
            source_id: self.source_id@,
            idempotency_key: self.idempotency_key@,
            amount_money: self.amount_money,
            autocomplete: self.autocomplete,
            verification_token: self.verification_token.deep_view(),
        }
    }
}

/// One entry of the gateway's `errors` array.
#[derive(Debug, Default, PartialEq, Eq)]
pub struct SquareErrorResponse {
    pub category: String,
    pub code: String,
    pub detail: Option<String>,
    pub field: Option<String>,
}

/// What the gateway answers when asked to create or complete a payment.
/// Either field may be missing, and both may be there.
#[derive(Debug, Default, PartialEq, Eq)]
pub struct SquarePaymentsResponse {
    pub payment: Option<Payment>,
    pub errors: Option<Vec<SquareErrorResponse>>,
}

/// A fee the gateway took, and when.
#[derive(Debug, Default, PartialEq, Eq)]
pub struct ProcessingFee {
    pub effective_at: String,
    pub amount_money: AmountMoney,
}

/// The gateway's record of a payment. Only `id` and `card_details.status`
/// are interpreted; the rest is carried as it came.
#[derive(Debug, PartialEq, Eq)]
pub struct Payment {
    pub id: String,
    pub created_at: Option<String>,
    pub updated_at: Option<String>,
    pub amount_money: AmountMoney,
    pub app_fee_money: Option<AmountMoney>,
    pub delay_duration: Option<String>,
    pub source_type: Option<String>,
    pub card_details: CardDetails,
    pub location_id: Option<String>,
    pub order_id: Option<String>,
    pub reference_id: Option<String>,
    pub risk_evaluation: Option<RiskEvaluation>,
    pub note: Option<String>,
    pub customer_id: Option<String>,
    pub total_money: Option<AmountMoney>,
    pub approved_money: Option<AmountMoney>,
    pub receipt_number: Option<String>,
    pub receipt_url: Option<String>,
    pub delay_action: Option<String>,
    pub delayed_until: Option<String>,
    pub application_details: Option<ApplicationDetails>,
    pub version_token: Option<String>,
    pub processing_key: Option<Vec<ProcessingFee>>,
}

/// How the card behind a payment fared. `status` is the status of the
/// payment as a whole.
#[derive(Debug, PartialEq, Eq)]
pub struct CardDetails {
    pub status: SquarePaymentStatus,
    pub card: Option<Card>,
    pub entry_method: Option<String>,
    pub cvv_status: Option<String>,
    pub avs_status: Option<String>,
    pub statement_description: Option<String>,
    pub auth_result_code: Option<String>,
    pub card_payment_timeline: Option<CardPaymentTimeline>,
}

/// What the gateway discloses of a card.
#[derive(Debug, PartialEq, Eq)]
pub struct Card {
    pub card_brand: Option<String>,
    pub last_4: Option<String>,
    pub exp_month: Option<i32>,
    pub exp_year: Option<i32>,
    pub fingerprint: Option<String>,
    pub card_type: Option<String>,
    pub prepaid_type: Option<String>,
    pub bin: Option<String>,
}

/// When a card payment was authorized and captured.
#[derive(Debug, PartialEq, Eq)]
pub struct CardPaymentTimeline {
    pub authorized_at: Option<String>,
    pub captured_at: Option<String>,
}

/// The gateway's own estimate of a payment's risk.
#[derive(Debug, PartialEq, Eq)]
pub struct RiskEvaluation {
    pub created_at: Option<String>,
    pub risk_level: Option<String>,
}

/// The application through which a payment was taken.
#[derive(Debug, PartialEq, Eq)]
pub struct ApplicationDetails {
    square_product: Option<String>,
    application_id: Option<String>,
}

impl ApplicationDetails {
    /// The product of the gateway that took the payment, if it was named.
    pub closed spec fn spec_square_product(&self) -> Option<String> {
        self.square_product
    }

    /// The identifier of the application, if it was named.
    pub closed spec fn spec_application_id(&self) -> Option<String> {
        self.application_id
    }

    /// Details that name the given product and application.
    pub fn new(square_product: Option<String>, application_id: Option<String>) -> (details: Self)
        ensures
            details.spec_square_product() == square_product,
            details.spec_application_id() == application_id,
    {
        ApplicationDetails { square_product, application_id }
    }

    /// The product of the gateway that took the payment, if it was named.
    pub fn square_product(&self) -> (product: &Option<String>)
        ensures
            *product == self.spec_square_product(),
    {
        &self.square_product
    }

    /// The identifier of the application, if it was named.
    pub fn application_id(&self) -> (id: &Option<String>)
        ensures
            *id == self.spec_application_id(),
    {
        &self.application_id
    }
}

impl SquarePaymentsRequest {
    /// Whether the gateway is to capture the payment as soon as it has
    /// authorized it: only for a card, and only when capture is automatic
    /// or was left unsaid.
    pub open spec fn autocomplete_for(item: &PaymentsAuthorizeRouterData) -> bool {
        &&& item.payment_method is Card
        &&& (item.request.capture_method is None || item.request.capture_method == Some(
            CaptureMethod::Automatic,
        ))
    }

    /// Whether the charge goes through 3-D Secure: only for a card whose
    /// holder is to be authenticated that way.
    pub open spec fn three_ds_enabled(item: &PaymentsAuthorizeRouterData) -> bool {
        item.payment_method is Card && item.auth_type is ThreeDs
    }

    /// The payment source named in the metadata; the empty text when none is.
    pub open spec fn source_id_for(item: &PaymentsAuthorizeRouterData) -> Seq<char> {
        match item.request.metadata {
            Some(metadata) => match metadata.session_id {
                Some(session_id) => session_id@,
                None => Seq::empty(),
            },
            None => Seq::empty(),
        }
    }

    /// The proof of 3-D Secure carried in the metadata, if any.
    pub open spec fn verification_token_for(item: &PaymentsAuthorizeRouterData) -> Option<
        Seq<char>,
    > {
        match item.request.metadata {
            Some(metadata) => metadata.verification_token.deep_view(),
            None => None,
        }
    }

    /// Why no request may be built from `item`: a charge under 3-D Secure
    /// needs its verification token. `None` when nothing stands in the way.
    pub open spec fn rejection(item: &PaymentsAuthorizeRouterData) -> Option<ConnectorErrorView> {
        if Self::three_ds_enabled(item) && Self::verification_token_for(item) is None {
            Some(
                ConnectorErrorView::MissingRequiredField { field_name: VERIFICATION_TOKEN_FIELD@ },
            )
        } else {
            None
        }
    }

    /// The request that asks the gateway for what `item` asks, under the
    /// idempotency key `key`.
    pub open spec fn request_for(
        item: &PaymentsAuthorizeRouterData,
        key: Seq<char>,
    ) -> SquarePaymentsRequestView {
        SquarePaymentsRequestView {
            source_id: Self::source_id_for(item),
            idempotency_key: key,
            amount_money: AmountMoney::spec_to_wire(item.request.amount, item.request.currency),
            autocomplete: Self::autocomplete_for(item),
            verification_token: Self::verification_token_for(item),
        }
    }

    /// What building a request from `item` under the key `key` comes to.
    pub open spec fn build_spec(item: &PaymentsAuthorizeRouterData, key: Seq<char>) -> Result<
        SquarePaymentsRequestView,
        ConnectorErrorView,
    > {
        match Self::rejection(item) {
            Some(error) => Err(error),
            None => Ok(Self::request_for(item, key)),
        }
    }

    /// A card charged under 3-D Secure gets a request exactly when its
    /// metadata carries a verification token; without one the only answer
    /// is that the field `verification_token` is missing. The key plays no
    /// part in that.
    pub proof fn lemma_three_ds_card_needs_token(
        item: &PaymentsAuthorizeRouterData,
        key: Seq<char>,
    )
        requires
            item.auth_type is ThreeDs,
            item.payment_method is Card,
        ensures
            Self::verification_token_for(item) is None ==> Self::build_spec(item, key) == Err::<
                SquarePaymentsRequestView,
                ConnectorErrorView,
            >(ConnectorErrorView::MissingRequiredField { field_name: "verification_token"@ }),
            Self::verification_token_for(item) is Some ==> Self::build_spec(item, key) == Ok::<
                SquarePaymentsRequestView,
                ConnectorErrorView,
            >(Self::request_for(item, key)),
    {
    }

    /// Whatever is not charged under 3-D Secure gets its request, with a
    /// verification token or without, and a token that is there is passed
    /// on.
    pub proof fn lemma_without_three_ds_always_built(
        item: &PaymentsAuthorizeRouterData,
        key: Seq<char>,
    )
        requires
            item.auth_type !is ThreeDs,
        ensures
            Self::build_spec(item, key) == Ok::<SquarePaymentsRequestView, ConnectorErrorView>(
                Self::request_for(item, key),
            ),
            Self::request_for(item, key).verification_token == Self::verification_token_for(item),
    {
    }

    /// No request that is built asks for a charge under 3-D Secure without
    /// carrying a verification token.
    pub proof fn lemma_built_three_ds_request_has_token(
        item: &PaymentsAuthorizeRouterData,
        key: Seq<char>,
    )
        requires
            Self::build_spec(item, key) is Ok,
            Self::three_ds_enabled(item),
        ensures
            Self::build_spec(item, key)->Ok_0.verification_token is Some,
    {
    }

    /// Only a card is captured at once: for every other payment method
    /// the request leaves the capture to a later call, and never goes
    /// through 3-D Secure.
    pub proof fn lemma_only_cards_autocomplete(item: &PaymentsAuthorizeRouterData)
        requires
            item.payment_method !is Card,
        ensures
            !Self::autocomplete_for(item),
            !Self::three_ds_enabled(item),
            Self::rejection(item) is None,
    {
    }

    /// Two requests for one `item` agree in everything but the key, and
    /// differ exactly when their keys differ.
    pub proof fn lemma_requests_differ_by_key_alone(
        item: &PaymentsAuthorizeRouterData,
        key1: Seq<char>,
        key2: Seq<char>,
    )
        ensures
            Self::request_for(item, key1) == (SquarePaymentsRequestView {
                idempotency_key: key1,
                ..Self::request_for(item, key2)
            }),
            Self::request_for(item, key1) == Self::request_for(item, key2) <==> key1 == key2,
    {
    }

    /// Tells whether a request may be built from `item`.
    fn validate(item: &PaymentsAuthorizeRouterData) -> (res: Result<(), ConnectorError>)
        ensures
            res is Ok <==> Self::rejection(item) is None,
            res matches Err(error) ==> Self::rejection(item) == Some(error@),
    {
        let three_ds_enabled = match item.payment_method {
            PaymentMethodType::Card => matches!(item.auth_type, AuthenticationType::ThreeDs),
            _ => false,
        };
        let has_token = match &item.request.metadata {
            Some(meta) => meta.verification_token.is_some(),
            None => false,
        };
        if (three_ds_enabled && has_token) || !three_ds_enabled {
            Ok(())
        } else {
            Err(ConnectorError::MissingRequiredField { field_name: VERIFICATION_TOKEN_FIELD })
        }
    }

    /// Puts the request for `item` together around the given key.
    fn assemble(item: &PaymentsAuthorizeRouterData, idempotency_key: String) -> (request: Self)
        ensures
            request@ == Self::request_for(item, idempotency_key@),
    {
        let capture = match item.payment_method {
            PaymentMethodType::Card => matches!(
                item.request.capture_method,
                Some(CaptureMethod::Automatic) | None
            ),
            _ => false,
        };
        let (nonce, verification_token) = match &item.request.metadata {
            Some(meta) => (meta.session_id.clone(), meta.verification_token.clone()),
            None => (None, None),
        };
        Self {
            source_id: nonce.unwrap_or_default(),
            idempotency_key,
            amount_money: AmountMoney::to_wire(item.request.amount, item.request.currency),
            autocomplete: capture,
            verification_token,
        }
    }

    /// Builds the request for `item` under an idempotency key of the
    /// caller's choosing, as a caller does who replays a request it has
    /// kept. The key is taken as it is.
    pub fn with_idempotency_key(
        item: &PaymentsAuthorizeRouterData,
        idempotency_key: String,
    ) -> (res: Result<Self, ConnectorError>)
        ensures
            result_view(res) == Self::build_spec(item, idempotency_key@),
    {
        match Self::validate(item) {
            Ok(_) => Ok(Self::assemble(item, idempotency_key)),
            Err(error) => Err(error),
        }
    }
}

impl TryFrom<&PaymentsAuthorizeRouterData> for SquarePaymentsRequest {
    type Error = ConnectorError;

    /// Builds the request for `item` under a key drawn afresh. Whether a
    /// request is built depends on `item` alone, and so does everything in
    /// it but the key. No key is drawn for a request that is not built.
    fn try_from(item: &PaymentsAuthorizeRouterData) -> (res: Result<Self, Self::Error>)
        ensures
            res is Ok <==> Self::rejection(item) is None,
            res matches Err(error) ==> Self::rejection(item) == Some(error@),
            res matches Ok(request) ==> is_random_uuid_text(request.idempotency_key@),
            res matches Ok(request) ==> request@ == Self::request_for(
                item,
                request.idempotency_key@,
            ),
    {
        match Self::validate(item) {
            Ok(_) => Ok(Self::assemble(item, fresh_idempotency_key())),
            Err(error) => Err(error),
        }
    }
}

impl TryFromSpecImpl<&PaymentsAuthorizeRouterData> for SquarePaymentsRequest {
    /// The key differs from call to call, so no function of `item` gives
    /// the result.
    open spec fn obeys_try_from_spec() -> bool {
        false
    }

    open spec fn try_from_spec(item: &PaymentsAuthorizeRouterData) -> Result<Self, Self::Error> {
        arbitrary()
    }
}

/// What an answer of the gateway comes to in the router's terms.
pub struct PaymentOutcome {
    pub status: AttemptStatus,
    pub response: Result<PaymentsResponseDataView, ErrorResponseView>,
}

impl SquarePaymentsResponse {
    /// The outcome that the answer `self`, received under the HTTP status
    /// `http_code`, stands for. The payment decides: where there is one,
    /// its card status gives the attempt's status and its identifier names
    /// the transaction; where there is none, the attempt has failed
    /// authentication, whatever `errors` holds.
    pub open spec fn outcome(self, http_code: u16) -> PaymentOutcome {
        match self.payment {
            Some(payment) => PaymentOutcome {
                status: payment.card_details.status.attempt_status(),
                response: Ok(PaymentsResponseDataView::plain_transaction(payment.id@)),
            },
            None => PaymentOutcome {
                status: AttemptStatus::AuthenticationFailed,
                response: Err(ErrorResponseView::without_detail(http_code)),
            },
        }
    }

    /// An answer without a payment is a failed authentication, recorded
    /// as a failure without detail under the HTTP status the answer came
    /// with. What `errors` holds makes no difference.
    pub proof fn lemma_absent_payment(response: SquarePaymentsResponse, http_code: u16)
        requires
            response.payment is None,
        ensures
            response.outcome(http_code).status == AttemptStatus::AuthenticationFailed,
            response.outcome(http_code).response == Err::<
                PaymentsResponseDataView,
                ErrorResponseView,
            >(
                ErrorResponseView {
                    code: "No error code"@,
                    message: Seq::empty(),
                    reason: None,
                    status_code: http_code,
                },
            ),
    {
    }

    /// The outcome of an answer depends on its payment and on the HTTP
    /// status alone: two answers with the same payment have the same
    /// outcome, whatever errors either lists.
    pub proof fn lemma_errors_are_not_read(
        first: SquarePaymentsResponse,
        second: SquarePaymentsResponse,
        http_code: u16,
    )
        requires
            first.payment == second.payment,
        ensures
            first.outcome(http_code) == second.outcome(http_code),
    {
    }

    /// An answer with a payment is a success that names the transaction
    /// by the payment's identifier and asks for no redirect; its status is
    /// the one that stands for the card's. A captured payment is charged.
    pub proof fn lemma_present_payment(response: SquarePaymentsResponse, http_code: u16)
        requires
            response.payment is Some,
        ensures
            response.outcome(http_code).status
                == response.payment->0.card_details.status.attempt_status(),
            response.outcome(http_code).response == Ok::<
                PaymentsResponseDataView,
                ErrorResponseView,
            >(PaymentsResponseDataView::plain_transaction(response.payment->0.id@)),
            response.payment->0.card_details.status is Captured ==> response.outcome(
                http_code,
            ).status == AttemptStatus::Charged,
    {
    }

    /// Whether the gateway sent a payment can be read off the outcome
    /// alone: the outcome is a failure, and its status a failed
    /// authentication, exactly when there was none.
    pub proof fn lemma_payment_decides(response: SquarePaymentsResponse, http_code: u16)
        ensures
            response.payment is None <==> response.outcome(http_code).response is Err,
            response.payment is None <==> response.outcome(http_code).status
                == AttemptStatus::AuthenticationFailed,
    {
    }
}

impl<F, T> TryFrom<
    ResponseRouterData<F, SquarePaymentsResponse, T, PaymentsResponseData>,
> for RouterData<F, T, PaymentsResponseData> {
    type Error = ParsingError;

    /// Records the gateway's answer in the call it answers. Always
    /// succeeds; nothing of the call but its status and response changes.
    fn try_from(
        item: ResponseRouterData<F, SquarePaymentsResponse, T, PaymentsResponseData>,
    ) -> (res: Result<Self, Self::Error>)
        ensures
            res is Ok,
            res matches Ok(data) ==> data.same_call_as(item.data),
            res matches Ok(data) ==> data.status == item.response.outcome(item.http_code).status,
            res matches Ok(data) ==> result_view(data.response) == item.response.outcome(
                item.http_code,
            ).response,
    {
        match item.response.payment {
            Some(payment) => Ok(
                Self {
                    status: AttemptStatus::from(payment.card_details.status),
                    response: Ok(
                        PaymentsResponseData::TransactionResponse {
                            resource_id: ResponseId::ConnectorTransactionId(payment.id),
                            redirection_data: None,
                            redirect: false,
                            mandate_reference: None,
                            connector_metadata: None,
                        },
                    ),
                    ..item.data
                },
            ),
            _ => Ok(
                Self {
                    status: AttemptStatus::AuthenticationFailed,
                    response: Err(ErrorResponse::without_detail(item.http_code)),
                    ..item.data
                },
            ),
        }
    }
}

impl<F, T> TryFromSpecImpl<
    ResponseRouterData<F, SquarePaymentsResponse, T, PaymentsResponseData>,
> for RouterData<F, T, PaymentsResponseData> {
    /// The texts of the result are fixed, the strings that hold them are
    /// not, so the result is stated by its value and not as a term.
    open spec fn obeys_try_from_spec() -> bool {
        false
    }

    open spec fn try_from_spec(
        item: ResponseRouterData<F, SquarePaymentsResponse, T, PaymentsResponseData>,
    ) -> Result<Self, Self::Error> {
        arbitrary()
    }
}

} // verus!
