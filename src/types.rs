use vstd::prelude::*;

use core::marker::PhantomData;

use crate::duplicate::Duplicate;
use crate::enums::{AttemptStatus, CaptureMethod, RefundStatus};

verus! {

/// The credential bundle configured for a connector.
#[derive(Clone, Debug, PartialEq, Eq)]
pub enum ConnectorAuthType {
    HeaderKey { api_key: String },
    BodyKey { api_key: String, key1: String },
    SignatureKey { api_key: String, key1: String, api_secret: String },
    NoKey,
}

/// Settings of one connector.
#[derive(Clone, Debug, PartialEq, Eq)]
pub struct ConnectorParams {
    pub base_url: String,
}

/// Settings of the connectors this crate knows.
#[derive(Clone, Debug, PartialEq, Eq)]
pub struct Connectors {
    pub dlocal: ConnectorParams,
}

/// A postal address as the orchestrator holds it.
#[derive(Clone, Debug, PartialEq, Eq)]
pub struct AddressDetails {
    pub first_name: Option<String>,
    pub last_name: Option<String>,
    pub line1: Option<String>,
    pub city: Option<String>,
    pub zip: Option<String>,
    pub country: Option<String>,
}

/// The addresses attached to a payment.
#[derive(Clone, Debug, PartialEq, Eq)]
pub struct PaymentAddress {
    pub billing: Option<AddressDetails>,
    pub shipping: Option<AddressDetails>,
}

/// Card details of a card payment.
#[derive(Clone, Debug, PartialEq, Eq)]
pub struct CardData {
    pub card_number: String,
    pub card_exp_month: String,
    pub card_exp_year: String,
    pub card_holder_name: String,
    pub card_cvc: String,
}

/// Details of a wallet payment.
#[derive(Clone, Debug, PartialEq, Eq)]
pub struct WalletData {
    pub issuer_name: String,
}

/// The payment method data of a payment, a closed set of variants.
#[derive(Clone, Debug, PartialEq, Eq)]
pub enum PaymentMethodData {
    Card(CardData),
    Wallet(WalletData),
    BankTransfer,
    PayLater,
    Paypal,
}

/// A reference to an existing mandate.
#[derive(Clone, Debug, PartialEq, Eq)]
pub struct MandateIds {
    pub mandate_id: String,
}

/// How a payment is identified towards the gateway.
#[derive(Clone, Debug, PartialEq, Eq)]
pub enum ResponseId {
    ConnectorTransactionId(String),
    EncodedData(String),
    NoResponseId,
}

/// Canonical request of the Authorize flow.
#[derive(Clone, Debug, PartialEq, Eq)]
pub struct PaymentsAuthorizeData {
    /// Amount in minor currency units.
    pub amount: i64,
    /// ISO currency code.
    pub currency: String,
    pub payment_method_data: PaymentMethodData,
    pub capture_method: Option<CaptureMethod>,
    pub email: Option<String>,
    pub mandate_id: Option<MandateIds>,
    /// The payer's identity document (tax id), as the merchant supplied it.
    pub payer_document: String,
    /// Whether to force 3-D Secure; `None` lets the gateway decide.
    pub force_three_ds: Option<bool>,
}

/// Canonical request of the PSync flow.
#[derive(Clone, Debug, PartialEq, Eq)]
pub struct PaymentsSyncData {
    pub connector_transaction_id: ResponseId,
}

/// Canonical request of the Capture flow.
#[derive(Clone, Debug, PartialEq, Eq)]
pub struct PaymentsCaptureData {
    pub amount_to_capture: Option<i64>,
    pub amount: i64,
    pub currency: String,
    pub connector_transaction_id: String,
}

/// Canonical request of the Void flow.
#[derive(Clone, Debug, PartialEq, Eq)]
pub struct PaymentsCancelData {
    pub connector_transaction_id: String,
    pub cancellation_reason: Option<String>,
}

/// Canonical request of the refund flows.
#[derive(Clone, Debug, PartialEq, Eq)]
pub struct RefundsData {
    pub refund_id: String,
    pub connector_transaction_id: String,
    pub connector_refund_id: Option<String>,
    pub currency: String,
    pub amount: i64,
    pub refund_amount: i64,
    /// Where the gateway posts refund notifications.
    pub notification_url: Option<String>,
}

/// HTTP method of a request or of a redirect.
#[derive(Clone, Copy, Debug, PartialEq, Eq, Structural)]
pub enum Method {
    Get,
    Post,
    Put,
    Delete,
}

/// A redirect the customer must follow: the url, the method and the form
/// fields to resubmit. Form field names are unique.
#[derive(Clone, Debug, PartialEq, Eq)]
pub struct RedirectForm {
    pub url: String,
    pub method: Method,
    pub form_fields: Vec<(String, String)>,
}

/// Canonical outcome of a payment flow.
#[derive(Clone, Debug, PartialEq, Eq)]
pub enum PaymentsResponseData {
    TransactionResponse {
        resource_id: ResponseId,
        redirection_data: Option<RedirectForm>,
        redirect: bool,
        mandate_reference: Option<String>,
    },
}

/// Canonical outcome of a refund flow.
#[derive(Clone, Debug, PartialEq, Eq)]
pub struct RefundsResponseData {
    pub connector_refund_id: String,
    pub refund_status: RefundStatus,
}

/// Canonical error shape, whichever flow failed.
#[derive(Clone, Debug, PartialEq, Eq)]
pub struct ErrorResponse {
    pub status_code: u16,
    pub code: String,
    pub message: String,
    pub reason: Option<String>,
}

/// The Authorize flow: authorize, and capture when asked, a payment.
#[derive(Clone, Copy, Debug, PartialEq, Eq)]
pub struct Authorize;

/// The PSync flow: read the state of a payment.
#[derive(Clone, Copy, Debug, PartialEq, Eq)]
pub struct PSync;

/// The Capture flow: capture an authorized payment.
#[derive(Clone, Copy, Debug, PartialEq, Eq)]
pub struct Capture;

/// The Void flow: cancel an authorized payment.
#[derive(Clone, Copy, Debug, PartialEq, Eq)]
pub struct Void;

/// The RefundExecute flow: refund a payment.
#[derive(Clone, Copy, Debug, PartialEq, Eq)]
pub struct Execute;

/// The RefundSync flow: read the state of a refund.
#[derive(Clone, Copy, Debug, PartialEq, Eq)]
pub struct RSync;

/// The orchestrator's snapshot of one operation of flow `F`: request-scoped
/// metadata, the flow's canonical request `T`, and its outcome `R` once
/// known.
#[derive(Debug, PartialEq, Eq)]
pub struct RouterData<F, T, R> {
    pub flow: PhantomData<F>,
    pub merchant_id: String,
    pub connector: String,
    pub payment_id: String,
    pub attempt_id: String,
    pub status: AttemptStatus,
    pub connector_auth_type: ConnectorAuthType,
    pub description: Option<String>,
    pub return_url: Option<String>,
    pub address: PaymentAddress,
    pub request: T,
    pub response: Result<R, ErrorResponse>,
}

impl<F, T, R> RouterData<F, T, R> {
    /// `after` carries every field of `self` but the status and the outcome.
    pub open spec fn carried_into<S>(self, after: RouterData<F, T, S>) -> bool {
        &&& after.merchant_id == self.merchant_id
        &&& after.connector == self.connector
        &&& after.payment_id == self.payment_id
        &&& after.attempt_id == self.attempt_id
        &&& after.connector_auth_type == self.connector_auth_type
        &&& after.description == self.description
        &&& after.return_url == self.return_url
        &&& after.address == self.address
        &&& after.request == self.request
    }

    /// The snapshot with its status and outcome replaced.
    pub fn with_outcome(self, status: AttemptStatus, response: Result<R, ErrorResponse>) -> (r:
        RouterData<F, T, R>)
        ensures
            self.carried_into(r),
            r.status == status,
            r.response == response,
    {
        RouterData { status, response, ..self }
    }
}

impl<F, T: Duplicate, R> RouterData<F, T, R> {
    /// A fresh snapshot that carries every field of `self` but the status
    /// and the outcome, which it takes from the arguments.
    pub fn copy_with_outcome<S>(
        &self,
        status: AttemptStatus,
        response: Result<S, ErrorResponse>,
    ) -> (r: RouterData<F, T, S>)
        ensures
            self.carried_into(r),
            r.status == status,
            r.response == response,
    {
        RouterData {
            flow: PhantomData,
            merchant_id: self.merchant_id.duplicate(),
            connector: self.connector.duplicate(),
            payment_id: self.payment_id.duplicate(),
            attempt_id: self.attempt_id.duplicate(),
            status,
            connector_auth_type: self.connector_auth_type.duplicate(),
            description: self.description.duplicate(),
            return_url: self.return_url.duplicate(),
            address: self.address.duplicate(),
            request: self.request.duplicate(),
            response,
        }
    }
}

/// The canonical snapshot together with the gateway's parsed answer.
pub struct ResponseRouterData<F, B, T, R> {
    pub response: B,
    pub data: RouterData<F, T, R>,
    pub http_code: u16,
}

/// A transport-ready request.
#[derive(Clone, Debug, PartialEq, Eq)]
pub struct Request {
    pub method: Method,
    pub url: String,
    pub headers: Vec<(String, String)>,
    pub body: Option<String>,
}

/// A gateway answer as the transport read it: the HTTP status and the body
/// decoded into the flow's shape, or `None` where the body had another shape.
#[derive(Clone, Debug, PartialEq, Eq)]
pub struct Response<B> {
    pub status_code: u16,
    pub response: Option<B>,
}

/// What the orchestrator does next after a redirect completed.
#[derive(Clone, Debug, PartialEq, Eq)]
pub enum CallConnectorAction {
    Trigger,
    Avoid,
    StatusUpdate(AttemptStatus),
    HandleResponse(Vec<u8>),
}

/// Kinds of incoming webhook events.
#[derive(Clone, Copy, Debug, PartialEq, Eq, Structural)]
pub enum IncomingWebhookEvent {
    PaymentIntentSuccess,
    EndpointVerification,
}

} // verus!
