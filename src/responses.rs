use vstd::prelude::*;

use crate::enums::{self, AttemptStatus};
use crate::errors::ConnectorError;
use crate::redirect::{redirection_for, to_redirection_data, url_fails};
use crate::types::{
    PaymentsResponseData, RefundsData, RefundsResponseData, ResponseId, ResponseRouterData,
    RouterData,
};

verus! {

/// Status of a payment as the gateway reports it.
#[derive(Clone, Copy, Debug, PartialEq, Eq, Structural)]
pub enum DlocalPaymentStatus {
    Authorized,
    Paid,
    Verified,
    Cancelled,
    Pending,
    Rejected,
}

/// The canonical status of each gateway payment status.
pub open spec fn attempt_status_of(s: DlocalPaymentStatus) -> AttemptStatus {
    match s {
        DlocalPaymentStatus::Authorized => AttemptStatus::Authorized,
        DlocalPaymentStatus::Verified => AttemptStatus::Authorized,
        DlocalPaymentStatus::Paid => AttemptStatus::Charged,
        DlocalPaymentStatus::Pending => AttemptStatus::AuthenticationPending,
        DlocalPaymentStatus::Cancelled => AttemptStatus::Voided,
        DlocalPaymentStatus::Rejected => AttemptStatus::AuthenticationFailed,
    }
}

impl From<DlocalPaymentStatus> for AttemptStatus {
    fn from(item: DlocalPaymentStatus) -> (r: AttemptStatus) {
        match item {
            DlocalPaymentStatus::Authorized => AttemptStatus::Authorized,
            DlocalPaymentStatus::Verified => AttemptStatus::Authorized,
            DlocalPaymentStatus::Paid => AttemptStatus::Charged,
            DlocalPaymentStatus::Pending => AttemptStatus::AuthenticationPending,
            DlocalPaymentStatus::Cancelled => AttemptStatus::Voided,
            DlocalPaymentStatus::Rejected => AttemptStatus::AuthenticationFailed,
        }
    }
}

impl vstd::std_specs::convert::FromSpecImpl<DlocalPaymentStatus> for AttemptStatus {
    open spec fn obeys_from_spec() -> bool {
        true
    }

    open spec fn from_spec(v: DlocalPaymentStatus) -> AttemptStatus {
        attempt_status_of(v)
    }
}

/// Status of a refund as the gateway reports it.
#[derive(Clone, Copy, Debug, PartialEq, Eq, Structural)]
pub enum RefundStatus {
    Success,
    Pending,
    Rejected,
    Cancelled,
}

/// The canonical status of each gateway refund status.
pub open spec fn refund_status_of(s: RefundStatus) -> enums::RefundStatus {
    match s {
        RefundStatus::Success => enums::RefundStatus::Success,
        RefundStatus::Pending => enums::RefundStatus::Pending,
        RefundStatus::Rejected => enums::RefundStatus::ManualReview,
        RefundStatus::Cancelled => enums::RefundStatus::Failure,
    }
}

impl From<RefundStatus> for enums::RefundStatus {
    fn from(item: RefundStatus) -> (r: enums::RefundStatus) {
        match item {
            RefundStatus::Success => enums::RefundStatus::Success,
            RefundStatus::Pending => enums::RefundStatus::Pending,
            RefundStatus::Rejected => enums::RefundStatus::ManualReview,
            RefundStatus::Cancelled => enums::RefundStatus::Failure,
        }
    }
}

impl vstd::std_specs::convert::FromSpecImpl<RefundStatus> for enums::RefundStatus {
    open spec fn obeys_from_spec() -> bool {
        true
    }

    open spec fn from_spec(v: RefundStatus) -> enums::RefundStatus {
        refund_status_of(v)
    }
}

/// Every gateway payment status maps to exactly one canonical status, by
/// the table below, and equal statuses map alike.
pub proof fn lemma_payment_status_map_total(a: DlocalPaymentStatus, b: DlocalPaymentStatus)
    ensures
        a == b ==> attempt_status_of(a) == attempt_status_of(b),
        a == DlocalPaymentStatus::Authorized ==> attempt_status_of(a) == AttemptStatus::Authorized,
        a == DlocalPaymentStatus::Verified ==> attempt_status_of(a) == AttemptStatus::Authorized,
        a == DlocalPaymentStatus::Paid ==> attempt_status_of(a) == AttemptStatus::Charged,
        a == DlocalPaymentStatus::Pending ==> attempt_status_of(a)
            == AttemptStatus::AuthenticationPending,
        a == DlocalPaymentStatus::Cancelled ==> attempt_status_of(a) == AttemptStatus::Voided,
        a == DlocalPaymentStatus::Rejected ==> attempt_status_of(a)
            == AttemptStatus::AuthenticationFailed,
{
}

/// Every gateway refund status maps to exactly one canonical refund
/// status, by the table below, and equal statuses map alike.
pub proof fn lemma_refund_status_map_total(a: RefundStatus, b: RefundStatus)
    ensures
        a == b ==> refund_status_of(a) == refund_status_of(b),
        a == RefundStatus::Success ==> refund_status_of(a) == enums::RefundStatus::Success,
        a == RefundStatus::Pending ==> refund_status_of(a) == enums::RefundStatus::Pending,
        a == RefundStatus::Rejected ==> refund_status_of(a) == enums::RefundStatus::ManualReview,
        a == RefundStatus::Cancelled ==> refund_status_of(a) == enums::RefundStatus::Failure,
{
}

/// The gateway's redirect for 3-D Secure.
#[derive(Clone, Debug, PartialEq, Eq)]
pub struct ThreeDSecureResData {
    pub redirect_url: Option<String>,
}

/// Answer of the Authorize call, also read for PSync, Capture and Void.
#[derive(Clone, Debug, PartialEq, Eq)]
pub struct DlocalPaymentsResponse {
    pub status: DlocalPaymentStatus,
    pub id: String,
    pub three_dsecure: Option<ThreeDSecureResData>,
}

impl DlocalPaymentsResponse {
    /// The redirect url the answer carries, if any.
    pub open spec fn redirect_url(self) -> Option<String> {
        match self.three_dsecure {
            Some(t) => t.redirect_url,
            None => None,
        }
    }

    /// `status` and `response` are the canonical outcome of this answer.
    pub open spec fn outcome_is(self, status: AttemptStatus, response: PaymentsResponseData) -> bool {
        &&& status == attempt_status_of(self.status)
        &&& match response {
            PaymentsResponseData::TransactionResponse {
                resource_id,
                redirection_data,
                redirect,
                mandate_reference,
            } => {
                &&& resource_id == ResponseId::ConnectorTransactionId(self.id)
                &&& redirect == redirection_data is Some
                &&& mandate_reference is None
                &&& redirection_for(self.redirect_url(), redirection_data)
            },
        }
    }

    /// The canonical status and outcome of this answer; a redirect url that
    /// does not parse gives `ResponseHandlingFailed`.
    pub fn outcome(self) -> (r: Result<(AttemptStatus, PaymentsResponseData), ConnectorError>)
        ensures
            url_fails(self.redirect_url()) ==> r == Err::<
                (AttemptStatus, PaymentsResponseData),
                ConnectorError,
            >(ConnectorError::ResponseHandlingFailed),
            !url_fails(self.redirect_url()) ==> (r matches Ok(o) && self.outcome_is(o.0, o.1)),
    {
        let three_ds_data = match self.three_dsecure {
            Some(val) => match to_redirection_data(val.redirect_url) {
                Ok(form) => form,
                Err(e) => {
                    return Err(e);
                },
            },
            None => None,
        };
        let redirect = three_ds_data.is_some();
        let response = PaymentsResponseData::TransactionResponse {
            resource_id: ResponseId::ConnectorTransactionId(self.id),
            redirection_data: three_ds_data,
            redirect,
            mandate_reference: None,
        };
        Ok((AttemptStatus::from(self.status), response))
    }
}

/// Canonical outcome of a transaction answer without redirect.
pub open spec fn plain_outcome_is(
    gateway_status: DlocalPaymentStatus,
    id: String,
    status: AttemptStatus,
    response: PaymentsResponseData,
) -> bool {
    &&& status == attempt_status_of(gateway_status)
    &&& response == PaymentsResponseData::TransactionResponse {
        resource_id: ResponseId::ConnectorTransactionId(id),
        redirection_data: None,
        redirect: false,
        mandate_reference: None,
    }
}

fn plain_outcome(gateway_status: DlocalPaymentStatus, id: String) -> (r: (
    AttemptStatus,
    PaymentsResponseData,
))
    ensures
        plain_outcome_is(gateway_status, id, r.0, r.1),
{
    (
        AttemptStatus::from(gateway_status),
        PaymentsResponseData::TransactionResponse {
            resource_id: ResponseId::ConnectorTransactionId(id),
            redirection_data: None,
            redirect: false,
            mandate_reference: None,
        },
    )
}

impl<F, T> ResponseRouterData<F, DlocalPaymentsResponse, T, PaymentsResponseData> {
    /// The snapshot with the answer's status and outcome laid over it.
    pub fn try_into_router_data(self) -> (r: Result<
        RouterData<F, T, PaymentsResponseData>,
        ConnectorError,
    >)
        ensures
            url_fails(self.response.redirect_url()) ==> r == Err::<
                RouterData<F, T, PaymentsResponseData>,
                ConnectorError,
            >(ConnectorError::ResponseHandlingFailed),
            !url_fails(self.response.redirect_url()) ==> (r matches Ok(after)
                && self.data.carried_into(after) && (after.response matches Ok(o)
                && self.response.outcome_is(after.status, o))),
    {
        match self.response.outcome() {
            Ok((status, response)) => Ok(self.data.with_outcome(status, Ok(response))),
            Err(e) => Err(e),
        }
    }
}

/// Answer of the PSync call.
#[derive(Clone, Debug, PartialEq, Eq)]
pub struct DlocalPaymentsSyncResponse {
    pub status: DlocalPaymentStatus,
    pub id: String,
}

impl<F, T> ResponseRouterData<F, DlocalPaymentsSyncResponse, T, PaymentsResponseData> {
    /// The snapshot with the answer's status and transaction laid over it.
    pub fn try_into_router_data(self) -> (r: Result<
        RouterData<F, T, PaymentsResponseData>,
        ConnectorError,
    >)
        ensures
            r matches Ok(after) && self.data.carried_into(after) && (after.response matches Ok(o)
                && plain_outcome_is(self.response.status, self.response.id, after.status, o)),
    {
        let (status, response) = plain_outcome(self.response.status, self.response.id);
        Ok(self.data.with_outcome(status, Ok(response)))
    }
}

/// Answer of the Capture call.
#[derive(Clone, Debug, PartialEq, Eq)]
pub struct DlocalPaymentsCaptureResponse {
    pub status: DlocalPaymentStatus,
    pub id: String,
}

impl<F, T> ResponseRouterData<F, DlocalPaymentsCaptureResponse, T, PaymentsResponseData> {
    /// The snapshot with the answer's status and transaction laid over it.
    pub fn try_into_router_data(self) -> (r: Result<
        RouterData<F, T, PaymentsResponseData>,
        ConnectorError,
    >)
        ensures
            r matches Ok(after) && self.data.carried_into(after) && (after.response matches Ok(o)
                && plain_outcome_is(self.response.status, self.response.id, after.status, o)),
    {
        let (status, response) = plain_outcome(self.response.status, self.response.id);
        Ok(self.data.with_outcome(status, Ok(response)))
    }
}

/// Answer of the Void call.
#[derive(Clone, Debug, PartialEq, Eq)]
pub struct DlocalPaymentsCancelResponse {
    pub status: DlocalPaymentStatus,
    pub id: String,
}

impl<F, T> ResponseRouterData<F, DlocalPaymentsCancelResponse, T, PaymentsResponseData> {
    /// The snapshot with the answer's status and transaction laid over it.
    pub fn try_into_router_data(self) -> (r: Result<
        RouterData<F, T, PaymentsResponseData>,
        ConnectorError,
    >)
        ensures
            r matches Ok(after) && self.data.carried_into(after) && (after.response matches Ok(o)
                && plain_outcome_is(self.response.status, self.response.id, after.status, o)),
    {
        let (status, response) = plain_outcome(self.response.status, self.response.id);
        Ok(self.data.with_outcome(status, Ok(response)))
    }
}

/// Answer of the refund calls.
#[derive(Clone, Debug, PartialEq, Eq)]
pub struct RefundResponse {
    pub id: String,
    pub status: RefundStatus,
}

impl RefundResponse {
    /// The canonical refund outcome of this answer.
    pub fn outcome(self) -> (r: RefundsResponseData)
        ensures
            r.connector_refund_id == self.id,
            r.refund_status == refund_status_of(self.status),
    {
        RefundsResponseData {
            connector_refund_id: self.id,
            refund_status: enums::RefundStatus::from(self.status),
        }
    }
}

impl<F> ResponseRouterData<F, RefundResponse, RefundsData, RefundsResponseData> {
    /// The snapshot with the refund outcome laid over it; the payment
    /// status is kept.
    pub fn try_into_router_data(self) -> (r: Result<
        RouterData<F, RefundsData, RefundsResponseData>,
        ConnectorError,
    >)
        ensures
            r matches Ok(after) && self.data.carried_into(after) && after.status
                == self.data.status && (after.response matches Ok(o) && o.connector_refund_id
                == self.response.id && o.refund_status == refund_status_of(self.response.status)),
    {
        let status = self.data.status;
        Ok(self.data.with_outcome(status, Ok(self.response.outcome())))
    }
}

/// The gateway's error body.
#[derive(Clone, Debug, PartialEq, Eq)]
pub struct DlocalErrorResponse {
    pub code: i32,
    pub message: String,
    pub param: Option<String>,
}

} // verus!
