//! Refunding a payment: the request the gateway takes and the answer it
//! gives, both when the refund is created and when its status is polled.

use vstd::prelude::*;
use vstd::std_specs::convert::TryFromSpecImpl;
use crate::api;
use crate::enums;
use crate::errors::ParsingError;
use crate::idempotency::{fresh_idempotency_key, is_random_uuid_text};
use crate::money::AmountMoney;
use crate::payments::{ProcessingFee, SquareErrorResponse};
use crate::status::RefundStatus;
use crate::types::{
    RefundsResponseData, RefundsResponseDataView, RefundsResponseRouterData, RefundsRouterData,
    RouterData,
};

verus! {

/// Body of the call that creates a refund.
#[derive(Debug, Default, PartialEq, Eq)]
pub struct SquareRefundRequest {
    pub amount_money: AmountMoney,
    pub idempotency_key: String,
    pub payment_id: String,
}

/// Mathematical value of a [`SquareRefundRequest`].
pub struct SquareRefundRequestView {
    pub amount_money: AmountMoney,
    pub idempotency_key: Seq<char>,
    pub payment_id: Seq<char>,
}

impl View for SquareRefundRequest {
    type V = SquareRefundRequestView;

    open spec fn view(&self) -> SquareRefundRequestView {
        SquareRefundRequestView {
            amount_money: self.amount_money,
            idempotency_key: self.idempotency_key@,
            payment_id: self.payment_id@,
        }
    }
}

/// What the gateway answers when asked to create or show a refund.
#[derive(Debug, PartialEq, Eq)]
pub struct SquareRefundResponse {
    pub errors: Option<Vec<SquareErrorResponse>>,
    pub refund: Refund,
}

/// The gateway's record of a refund. Only `id` and `status` are
/// interpreted; the rest is carried as it came.
#[derive(Debug, PartialEq, Eq)]
pub struct Refund {
    pub id: String,
    pub status: RefundStatus,
    pub amount_money: AmountMoney,
    pub payment_id: String,
    pub order_id: String,
    pub created_at: String,
    pub updated_at: String,
    pub processing_fee: Option<Vec<ProcessingFee>>,
    pub location_id: String,
    pub destination_type: String,
}

impl SquareRefundRequest {
    /// The request that asks the gateway for the refund `item` asks for,
    /// under the idempotency key `key`: the amount as it is, against the
    /// payment the gateway knows by the transaction's identifier.
    pub open spec fn request_for<F>(
        item: &RefundsRouterData<F>,
        key: Seq<char>,
    ) -> SquareRefundRequestView {
        SquareRefundRequestView {
            amount_money: AmountMoney::spec_to_wire(item.request.amount, item.request.currency),
            idempotency_key: key,
            payment_id: item.request.connector_transaction_id@,
        }
    }

    /// Builds the request for `item` under an idempotency key of the
    /// caller's choosing, as a caller does who replays a request it has
    /// kept. The key is taken as it is.
    pub fn with_idempotency_key<F>(
        item: &RefundsRouterData<F>,
        idempotency_key: String,
    ) -> (request: Self)
        ensures
            request@ == Self::request_for(item, idempotency_key@),
    {
        let amount_money = AmountMoney::to_wire(item.request.amount, item.request.currency);
        let payment_id = item.request.connector_transaction_id.clone();
        Self { amount_money, idempotency_key, payment_id }
    }
}

impl<F> TryFrom<&RefundsRouterData<F>> for SquareRefundRequest {
    type Error = ParsingError;

    /// Builds the request for `item` under a key drawn afresh. Always
    /// succeeds; everything in the request but the key depends on `item`
    /// alone.
    fn try_from(item: &RefundsRouterData<F>) -> (res: Result<Self, Self::Error>)
        ensures
            res is Ok,
            res matches Ok(request) ==> is_random_uuid_text(request.idempotency_key@),
            res matches Ok(request) ==> request@ == Self::request_for(
                item,
                request.idempotency_key@,
            ),
    {
        Ok(Self::with_idempotency_key(item, fresh_idempotency_key()))
    }
}

impl<F> TryFromSpecImpl<&RefundsRouterData<F>> for SquareRefundRequest {
    /// The key differs from call to call, so no function of `item` gives
    /// the result.
    open spec fn obeys_try_from_spec() -> bool {
        false
    }

    open spec fn try_from_spec(item: &RefundsRouterData<F>) -> Result<Self, Self::Error> {
        arbitrary()
    }
}

impl SquareRefundResponse {
    /// What the answer `self` comes to in the router's terms: the refund
    /// under the gateway's identifier, in the canonical status that stands
    /// for the gateway's.
    pub open spec fn outcome(self) -> RefundsResponseDataView {
        RefundsResponseDataView {
            connector_refund_id: self.refund.id@,
            refund_status: self.refund.status.refund_status(),
        }
    }
}

/// The call `item.data` once the gateway's answer `item.response` is
/// recorded in it: the response is the refund under the gateway's
/// identifier and in its canonical status, and nothing else has changed.
pub open spec fn recorded_refund<F>(
    item: RefundsResponseRouterData<F, SquareRefundResponse>,
) -> RefundsRouterData<F> {
    RouterData {
        response: Ok(
            RefundsResponseData {
                connector_refund_id: item.response.refund.id,
                refund_status: item.response.refund.status.refund_status(),
            },
        ),
        ..item.data
    }
}

/// Recording an answer changes the response of the call and nothing
/// else, and the response it leaves is a success that holds what the
/// answer comes to.
pub proof fn lemma_recording_changes_the_response_alone<F>(
    item: RefundsResponseRouterData<F, SquareRefundResponse>,
)
    ensures
        recorded_refund(item).same_call_as(item.data),
        recorded_refund(item).status == item.data.status,
        recorded_refund(item).response is Ok,
        recorded_refund(item).response->Ok_0@ == item.response.outcome(),
{
}

/// The flow of a refund call has no say in what the gateway's answer comes
/// to: the same refund is recorded as the same response, whether it
/// answers the creation of a refund or a poll of its status, whatever
/// errors are listed beside it and under whatever HTTP status it came.
pub proof fn lemma_flows_record_alike<F, G>(
    first: RefundsResponseRouterData<F, SquareRefundResponse>,
    second: RefundsResponseRouterData<G, SquareRefundResponse>,
)
    requires
        first.response.refund == second.response.refund,
    ensures
        recorded_refund(first).response == recorded_refund(second).response,
{
}

/// Records the gateway's answer in the refund call it answers, whichever
/// flow the call belongs to.
fn record_refund<F>(
    item: RefundsResponseRouterData<F, SquareRefundResponse>,
) -> (data: RefundsRouterData<F>)
    ensures
        data == recorded_refund(item),
{
    RouterData {
        response: Ok(
            RefundsResponseData {
                connector_refund_id: item.response.refund.id,
                refund_status: enums::RefundStatus::from(item.response.refund.status),
            },
        ),
        ..item.data
    }
}

impl TryFrom<
    RefundsResponseRouterData<api::Execute, SquareRefundResponse>,
> for RefundsRouterData<api::Execute> {
    type Error = ParsingError;

    /// Records the answer to the creation of a refund. Always succeeds,
    /// and what it gives is [`recorded_refund`].
    fn try_from(
        item: RefundsResponseRouterData<api::Execute, SquareRefundResponse>,
    ) -> (res: Result<Self, Self::Error>)
        ensures
            res == Ok::<Self, Self::Error>(recorded_refund(item)),
    {
        Ok(record_refund(item))
    }
}

impl TryFromSpecImpl<
    RefundsResponseRouterData<api::Execute, SquareRefundResponse>,
> for RefundsRouterData<api::Execute> {
    open spec fn obeys_try_from_spec() -> bool {
        true
    }

    open spec fn try_from_spec(
        item: RefundsResponseRouterData<api::Execute, SquareRefundResponse>,
    ) -> Result<Self, Self::Error> {
        Ok(recorded_refund(item))
    }
}

impl TryFrom<
    RefundsResponseRouterData<api::RSync, SquareRefundResponse>,
> for RefundsRouterData<api::RSync> {
    type Error = ParsingError;

    /// Records the answer to a poll of a refund's status. Always succeeds,
    /// and what it gives is [`recorded_refund`].
    fn try_from(
        item: RefundsResponseRouterData<api::RSync, SquareRefundResponse>,
    ) -> (res: Result<Self, Self::Error>)
        ensures
            res == Ok::<Self, Self::Error>(recorded_refund(item)),
    {
        Ok(record_refund(item))
    }
}

impl TryFromSpecImpl<
    RefundsResponseRouterData<api::RSync, SquareRefundResponse>,
> for RefundsRouterData<api::RSync> {
    open spec fn obeys_try_from_spec() -> bool {
        true
    }

    open spec fn try_from_spec(
        item: RefundsResponseRouterData<api::RSync, SquareRefundResponse>,
    ) -> Result<Self, Self::Error> {
        Ok(recorded_refund(item))
    }
}

} // verus!
