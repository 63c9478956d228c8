use vstd::prelude::*;
use vstd::string::*;

use crate::enums::CaptureMethod;
use crate::errors::ConnectorError;
use crate::json::{
    lemma_object_failure, members_view, object_json, object_text, opt_raw_field, opt_text,
    opt_text_field, opt_view, FieldView, JsonField,
};
use crate::text::{i64_text, int_text};
use crate::types::{
    Authorize, Capture, PSync, PaymentMethodData, PaymentsAuthorizeData, PaymentsCancelData,
    PaymentsCaptureData, PaymentsResponseData, PaymentsSyncData, RSync, RefundsData,
    RefundsResponseData, ResponseId, RouterData, Void,
};

verus! {

/// The payer of a payment.
#[derive(Debug, PartialEq, Eq)]
pub struct Payer {
    pub name: Option<String>,
    pub email: Option<String>,
    pub document: String,
}

/// Card fields of a card payment.
#[derive(Clone, Debug, PartialEq, Eq)]
pub struct Card {
    pub holder_name: String,
    pub number: String,
    pub cvv: String,
    pub expiration_month: String,
    pub expiration_year: String,
    /// `"true"` to capture immediately, `"false"` to only authorize.
    pub capture: String,
    pub installments_id: Option<String>,
    pub installments: Option<String>,
}

/// Whether 3-D Secure is forced.
#[derive(Clone, Copy, Debug, PartialEq, Eq, Structural)]
pub struct ThreeDSecureReqData {
    pub force: bool,
}

/// The gateway's payment method.
#[derive(Clone, Copy, Debug, PartialEq, Eq, Structural)]
pub enum PaymentMethodId {
    Card,
    MP,
}

/// Whether the customer pays in place or through a redirect.
#[derive(Clone, Copy, Debug, PartialEq, Eq, Structural)]
pub enum PaymentMethodFlow {
    Direct,
    ReDirect,
}

/// Body of the Authorize call.
#[derive(Debug, PartialEq, Eq)]
pub struct DlocalPaymentsRequest {
    /// Amount in minor currency units.
    pub amount: i64,
    pub currency: String,
    pub country: String,
    pub payment_method_id: PaymentMethodId,
    pub payment_method_flow: PaymentMethodFlow,
    pub payer: Payer,
    pub card: Option<Card>,
    pub order_id: String,
    pub three_dsecure: Option<ThreeDSecureReqData>,
    pub callback_url: Option<String>,
}

pub open spec fn bool_text(b: bool) -> Seq<char> {
    if b {
        "true"@
    } else {
        "false"@
    }
}

impl PaymentMethodId {
    pub open spec fn text(self) -> Seq<char> {
        match self {
            PaymentMethodId::Card => "CARD"@,
            PaymentMethodId::MP => "MP"@,
        }
    }

    /// The gateway's name of the payment method.
    pub fn as_str(&self) -> (r: &'static str)
        ensures
            r@ == self.text(),
    {
        match self {
            PaymentMethodId::Card => "CARD",
            PaymentMethodId::MP => "MP",
        }
    }
}

impl PaymentMethodFlow {
    pub open spec fn text(self) -> Seq<char> {
        match self {
            PaymentMethodFlow::Direct => "DIRECT"@,
            PaymentMethodFlow::ReDirect => "REDIRECT"@,
        }
    }

    /// The gateway's name of the flow.
    pub fn as_str(&self) -> (r: &'static str)
        ensures
            r@ == self.text(),
    {
        match self {
            PaymentMethodFlow::Direct => "DIRECT",
            PaymentMethodFlow::ReDirect => "REDIRECT",
        }
    }
}

impl Payer {
    pub open spec fn json_members(self) -> Seq<(Seq<char>, FieldView)> {
        seq![
            ("name"@, opt_text_field(opt_view(self.name))),
            ("email"@, opt_text_field(opt_view(self.email))),
            ("document"@, FieldView::Text(self.document@)),
        ]
    }

    /// JSON encoding of the payer.
    pub fn encode(&self) -> (r: Option<String>)
        ensures
            opt_view(r) == object_text(self.json_members()),
    {
        let mut ms: Vec<(&str, JsonField)> = Vec::new();
        ms.push(("name", opt_text(&self.name)));
        ms.push(("email", opt_text(&self.email)));
        ms.push(("document", JsonField::Text(self.document.clone())));
        assert(members_view(ms@) =~= self.json_members());
        object_json(&ms)
    }
}

impl Card {
    pub open spec fn json_members(self) -> Seq<(Seq<char>, FieldView)> {
        seq![
            ("holder_name"@, FieldView::Text(self.holder_name@)),
            ("number"@, FieldView::Text(self.number@)),
            ("cvv"@, FieldView::Text(self.cvv@)),
            ("expiration_month"@, FieldView::Text(self.expiration_month@)),
            ("expiration_year"@, FieldView::Text(self.expiration_year@)),
            ("capture"@, FieldView::Text(self.capture@)),
            ("installments_id"@, opt_text_field(opt_view(self.installments_id))),
            ("installments"@, opt_text_field(opt_view(self.installments))),
        ]
    }

    /// JSON encoding of the card fields.
    pub fn encode(&self) -> (r: Option<String>)
        ensures
            opt_view(r) == object_text(self.json_members()),
    {
        let mut ms: Vec<(&str, JsonField)> = Vec::new();
        ms.push(("holder_name", JsonField::Text(self.holder_name.clone())));
        ms.push(("number", JsonField::Text(self.number.clone())));
        ms.push(("cvv", JsonField::Text(self.cvv.clone())));
        ms.push(("expiration_month", JsonField::Text(self.expiration_month.clone())));
        ms.push(("expiration_year", JsonField::Text(self.expiration_year.clone())));
        ms.push(("capture", JsonField::Text(self.capture.clone())));
        ms.push(("installments_id", opt_text(&self.installments_id)));
        ms.push(("installments", opt_text(&self.installments)));
        assert(members_view(ms@) =~= self.json_members());
        object_json(&ms)
    }
}

impl ThreeDSecureReqData {
    pub open spec fn json_members(self) -> Seq<(Seq<char>, FieldView)> {
        seq![("force"@, FieldView::Bool(self.force))]
    }

    /// JSON encoding of the 3-D Secure settings.
    pub fn encode(&self) -> (r: Option<String>)
        ensures
            opt_view(r) == object_text(self.json_members()),
    {
        let mut ms: Vec<(&str, JsonField)> = Vec::new();
        ms.push(("force", JsonField::Bool(self.force)));
        assert(members_view(ms@) =~= self.json_members());
        object_json(&ms)
    }
}

pub open spec fn card_field(c: Option<Card>) -> FieldView {
    opt_raw_field(
        match c {
            Some(card) => Some(object_text(card.json_members())),
            None => None,
        },
    )
}

pub open spec fn three_ds_field(t: Option<ThreeDSecureReqData>) -> FieldView {
    opt_raw_field(
        match t {
            Some(d) => Some(object_text(d.json_members())),
            None => None,
        },
    )
}

impl DlocalPaymentsRequest {
    pub open spec fn json_members(self) -> Seq<(Seq<char>, FieldView)> {
        seq![
            ("amount"@, FieldView::Int(self.amount as int)),
            ("currency"@, FieldView::Text(self.currency@)),
            ("country"@, FieldView::Text(self.country@)),
            ("payment_method_id"@, FieldView::Text(self.payment_method_id.text())),
            ("payment_method_flow"@, FieldView::Text(self.payment_method_flow.text())),
            ("payer"@, FieldView::Raw(object_text(self.payer.json_members()))),
            ("card"@, card_field(self.card)),
            ("order_id"@, FieldView::Text(self.order_id@)),
            ("three_dsecure"@, three_ds_field(self.three_dsecure)),
            ("callback_url"@, opt_text_field(opt_view(self.callback_url))),
        ]
    }

    /// JSON encoding of the Authorize body, members in declaration order.
    pub fn encode(&self) -> (r: Option<String>)
        ensures
            opt_view(r) == object_text(self.json_members()),
    {
        let ghost spec_ms = self.json_members();
        let payer = match self.payer.encode() {
            Some(t) => t,
            None => {
                proof {
                    lemma_object_failure(spec_ms, 5);
                }
                return None;
            },
        };
        let card = match &self.card {
            Some(c) => match c.encode() {
                Some(t) => JsonField::Raw(t),
                None => {
                    proof {
                        lemma_object_failure(spec_ms, 6);
                    }
                    return None;
                },
            },
            None => JsonField::Null,
        };
        let three_ds = match &self.three_dsecure {
            Some(d) => match d.encode() {
                Some(t) => JsonField::Raw(t),
                None => {
                    proof {
                        lemma_object_failure(spec_ms, 8);
                    }
                    return None;
                },
            },
            None => JsonField::Null,
        };
        let mut ms: Vec<(&str, JsonField)> = Vec::new();
        ms.push(("amount", JsonField::Int(self.amount)));
        ms.push(("currency", JsonField::Text(self.currency.clone())));
        ms.push(("country", JsonField::Text(self.country.clone())));
        ms.push(
            ("payment_method_id", JsonField::Text(String::from_str(self.payment_method_id.as_str()))),
        );
        ms.push(
            (
                "payment_method_flow",
                JsonField::Text(String::from_str(self.payment_method_flow.as_str())),
            ),
        );
        ms.push(("payer", JsonField::Raw(payer)));
        ms.push(("card", card));
        ms.push(("order_id", JsonField::Text(self.order_id.clone())));
        ms.push(("three_dsecure", three_ds));
        ms.push(("callback_url", opt_text(&self.callback_url)));
        assert(members_view(ms@) =~= spec_ms);
        object_json(&ms)
    }
}

/// The authorize snapshot of this crate's payment flows.
pub type PaymentsAuthorizeRouterData = RouterData<Authorize, PaymentsAuthorizeData, PaymentsResponseData>;

/// The card members of the Authorize body for a card payment.
pub open spec fn card_members(c: crate::types::CardData, data: PaymentsAuthorizeData) -> Seq<
    (Seq<char>, FieldView),
> {
    seq![
        ("holder_name"@, FieldView::Text(c.card_holder_name@)),
        ("number"@, FieldView::Text(c.card_number@)),
        ("cvv"@, FieldView::Text(c.card_cvc@)),
        ("expiration_month"@, FieldView::Text(c.card_exp_month@)),
        ("expiration_year"@, FieldView::Text(c.card_exp_year@)),
        ("capture"@, FieldView::Text(bool_text(data.capture_method == Some(CaptureMethod::Automatic)))),
        ("installments_id"@, opt_text_field(match data.mandate_id {
            Some(m) => Some(m.mandate_id@),
            None => None,
        })),
        ("installments"@, opt_text_field(match data.mandate_id {
            Some(_) => Some("1"@),
            None => None,
        })),
    ]
}

/// The members of the Authorize body for `item`, whose billing address is
/// present and whose payment method is a card or a wallet.
pub open spec fn authorize_members(item: PaymentsAuthorizeRouterData) -> Seq<(Seq<char>, FieldView)> {
    let req = item.request;
    let billing = item.address.billing.unwrap();
    let payer = seq![
        ("name"@, opt_text_field(opt_view(billing.first_name))),
        ("email"@, opt_text_field(opt_view(req.email))),
        ("document"@, FieldView::Text(req.payer_document@)),
    ];
    let is_card = req.payment_method_data is Card;
    seq![
        ("amount"@, FieldView::Int(req.amount as int)),
        ("currency"@, FieldView::Text(req.currency@)),
        ("country"@, FieldView::Text(billing.country.unwrap()@)),
        ("payment_method_id"@, FieldView::Text(if is_card { "CARD"@ } else { "MP"@ })),
        ("payment_method_flow"@, FieldView::Text(if is_card { "DIRECT"@ } else { "REDIRECT"@ })),
        ("payer"@, FieldView::Raw(object_text(payer))),
        ("card"@, match req.payment_method_data {
            PaymentMethodData::Card(c) => FieldView::Raw(object_text(card_members(c, req))),
            _ => FieldView::Null,
        }),
        ("order_id"@, FieldView::Text(item.payment_id@)),
        ("three_dsecure"@, match req.force_three_ds {
            Some(force) => FieldView::Raw(object_text(seq![("force"@, FieldView::Bool(force))])),
            None => FieldView::Null,
        }),
        ("callback_url"@, opt_text_field(opt_view(item.return_url))),
    ]
}

/// `item` holds what the Authorize body needs: an email, a billing address
/// with a country, and a card or wallet payment method.
pub open spec fn authorize_ready(item: PaymentsAuthorizeRouterData) -> bool {
    &&& item.request.email is Some
    &&& item.address.billing matches Some(b) && b.country is Some
    &&& (item.request.payment_method_data is Card || item.request.payment_method_data is Wallet)
}

/// `r` is the error for an `item` that is not ready, checked in this order:
/// the email (`MissingRequiredField("email_id")`), the billing address
/// (`"billing.address"`), its country (`"billing.address.country"`), and
/// the payment method (`NotImplemented`).
pub open spec fn authorize_input_error<X>(
    item: PaymentsAuthorizeRouterData,
    r: Result<X, ConnectorError>,
) -> bool {
    match (item.request.email, item.address.billing) {
        (None, _) => r matches Err(e) && e.is_missing_field("email_id"@),
        (Some(_), None) => r matches Err(e) && e.is_missing_field("billing.address"@),
        (Some(_), Some(b)) => match b.country {
            None => r matches Err(e) && e.is_missing_field("billing.address.country"@),
            Some(_) => r matches Err(e) && e.is_not_implemented(),
        },
    }
}

/// The JSON text of the Authorize body for `item`, `None` where encoding
/// fails.
pub open spec fn authorize_body_text(item: PaymentsAuthorizeRouterData) -> Option<Seq<char>> {
    object_text(authorize_members(item))
}

impl DlocalPaymentsRequest {
    /// `self` is the Authorize body for `item`, whose email, billing
    /// address and country are present and whose payment method is a card
    /// or a wallet.
    pub open spec fn built_from(self, item: PaymentsAuthorizeRouterData) -> bool {
        let req = item.request;
        let billing = item.address.billing.unwrap();
        &&& self.amount == req.amount
        &&& self.currency == req.currency
        &&& self.country == billing.country.unwrap()
        &&& self.payer.name == billing.first_name
        &&& self.payer.email == req.email
        &&& self.payer.document == req.payer_document
        &&& self.order_id == item.payment_id
        &&& self.callback_url == item.return_url
        &&& self.three_dsecure == match req.force_three_ds {
            Some(force) => Some(ThreeDSecureReqData { force }),
            None => None,
        }
        &&& match req.payment_method_data {
            PaymentMethodData::Card(c) => {
                &&& self.payment_method_id == PaymentMethodId::Card
                &&& self.payment_method_flow == PaymentMethodFlow::Direct
                &&& self.card matches Some(card)
                &&& card.holder_name == c.card_holder_name
                &&& card.number == c.card_number
                &&& card.cvv == c.card_cvc
                &&& card.expiration_month == c.card_exp_month
                &&& card.expiration_year == c.card_exp_year
                &&& card.capture@ == bool_text(req.capture_method == Some(CaptureMethod::Automatic))
                &&& card.installments_id == match req.mandate_id {
                    Some(m) => Some(m.mandate_id),
                    None => None,
                }
                &&& opt_view(card.installments) == match req.mandate_id {
                    Some(_) => Some("1"@),
                    None => None,
                }
            },
            PaymentMethodData::Wallet(_) => {
                &&& self.payment_method_id == PaymentMethodId::MP
                &&& self.payment_method_flow == PaymentMethodFlow::ReDirect
                &&& self.card is None
            },
            _ => false,
        }
    }

    /// Builds the Authorize body. Checked in this order: the email
    /// (`MissingRequiredField("email_id")`), the billing address
    /// (`"billing.address"`) and its country (`"billing.address.country"`),
    /// then the payment method: a card or a wallet gives a body, any other
    /// method `NotImplemented`.
    pub fn try_from(item: &PaymentsAuthorizeRouterData) -> (r: Result<Self, ConnectorError>)
        ensures
            !authorize_ready(*item) ==> authorize_input_error(*item, r),
            authorize_ready(*item) ==> (r matches Ok(body) && body.built_from(*item)
                && body.json_members() == authorize_members(*item)),
    {
        let email = match &item.request.email {
            Some(e) => e.clone(),
            None => {
                return Err(
                    ConnectorError::MissingRequiredField {
                        field_name: String::from_str("email_id"),
                    },
                );
            },
        };
        let address = match &item.address.billing {
            Some(a) => a,
            None => {
                return Err(
                    ConnectorError::MissingRequiredField {
                        field_name: String::from_str("billing.address"),
                    },
                );
            },
        };
        let country = match &address.country {
            Some(c) => c.clone(),
            None => {
                return Err(
                    ConnectorError::MissingRequiredField {
                        field_name: String::from_str("billing.address.country"),
                    },
                );
            },
        };
        let three_dsecure = match item.request.force_three_ds {
            Some(force) => Some(ThreeDSecureReqData { force }),
            None => None,
        };
        let payer = Payer {
            name: address.first_name.clone(),
            email: Some(email),
            document: item.request.payer_document.clone(),
        };
        match &item.request.payment_method_data {
            PaymentMethodData::Card(ccard) => {
                let should_capture = match item.request.capture_method {
                    Some(CaptureMethod::Automatic) => true,
                    _ => false,
                };
                let capture = if should_capture {
                    "true"
                } else {
                    "false"
                };
                let (installments_id, installments) = match &item.request.mandate_id {
                    Some(ids) => (Some(ids.mandate_id.clone()), Some(String::from_str("1"))),
                    None => (None, None),
                };
                let card = Card {
                    holder_name: ccard.card_holder_name.clone(),
                    number: ccard.card_number.clone(),
                    cvv: ccard.card_cvc.clone(),
                    expiration_month: ccard.card_exp_month.clone(),
                    expiration_year: ccard.card_exp_year.clone(),
                    capture: String::from_str(capture),
                    installments_id,
                    installments,
                };
                let body = DlocalPaymentsRequest {
                    amount: item.request.amount,
                    currency: item.request.currency.clone(),
                    country,
                    payment_method_id: PaymentMethodId::Card,
                    payment_method_flow: PaymentMethodFlow::Direct,
                    payer,
                    card: Some(card),
                    order_id: item.payment_id.clone(),
                    three_dsecure,
                    callback_url: item.return_url.clone(),
                };
                proof {
                    assert(card.json_members() =~= card_members(*ccard, item.request));
                    lemma_same_members(body, *item);
                }
                Ok(body)
            },
            PaymentMethodData::Wallet(_) => {
                let body = DlocalPaymentsRequest {
                    amount: item.request.amount,
                    currency: item.request.currency.clone(),
                    country,
                    payment_method_id: PaymentMethodId::MP,
                    payment_method_flow: PaymentMethodFlow::ReDirect,
                    payer,
                    card: None,
                    order_id: item.payment_id.clone(),
                    three_dsecure,
                    callback_url: item.return_url.clone(),
                };
                proof {
                    lemma_same_members(body, *item);
                }
                Ok(body)
            },
            _ => Err(ConnectorError::NotImplemented(String::from_str("Current Payment Method"))),
        }
    }
}

/// A body built from `item` encodes as `authorize_members(item)` says.
proof fn lemma_same_members(body: DlocalPaymentsRequest, item: PaymentsAuthorizeRouterData)
    requires
        body.built_from(item),
        item.request.payment_method_data matches PaymentMethodData::Card(c) ==> body.card matches Some(
            card,
        ) && card.json_members() == card_members(c, item.request),
    ensures
        body.json_members() == authorize_members(item),
{
    let req = item.request;
    let billing = item.address.billing.unwrap();
    assert(body.payer.json_members() =~= seq![
        ("name"@, opt_text_field(opt_view(billing.first_name))),
        ("email"@, opt_text_field(opt_view(req.email))),
        ("document"@, FieldView::Text(req.payer_document@)),
    ]);
    match req.force_three_ds {
        Some(force) => {
            assert(body.three_dsecure.unwrap().json_members() =~= seq![
                ("force"@, FieldView::Bool(force)),
            ]);
        },
        None => {},
    }
    assert(body.json_members() =~= authorize_members(item));
}

pub type PaymentsSyncRouterData = RouterData<PSync, PaymentsSyncData, PaymentsResponseData>;

pub type PaymentsCancelRouterData = RouterData<Void, PaymentsCancelData, PaymentsResponseData>;

pub type PaymentsCaptureRouterData = RouterData<Capture, PaymentsCaptureData, PaymentsResponseData>;

pub type RefundsRouterData<F> = RouterData<F, RefundsData, RefundsResponseData>;

pub type RefundSyncRouterData = RefundsRouterData<RSync>;

/// Path data of the PSync call.
pub struct DlocalPaymentsSyncRequest {
    pub authz_id: String,
}

impl DlocalPaymentsSyncRequest {
    /// The gateway's transaction id of the payment, or
    /// `MissingConnectorTransactionID` when the snapshot holds none.
    pub fn try_from(item: &PaymentsSyncRouterData) -> (r: Result<Self, ConnectorError>)
        ensures
            match item.request.connector_transaction_id {
                ResponseId::ConnectorTransactionId(id) => r matches Ok(s) && s.authz_id == id,
                _ => r == Err::<Self, ConnectorError>(
                    ConnectorError::MissingConnectorTransactionID,
                ),
            },
    {
        match &item.request.connector_transaction_id {
            ResponseId::ConnectorTransactionId(id) => Ok(
                DlocalPaymentsSyncRequest { authz_id: id.clone() },
            ),
            _ => Err(ConnectorError::MissingConnectorTransactionID),
        }
    }
}

/// Path data of the Void call.
pub struct DlocalPaymentsCancelRequest {
    pub cancel_id: String,
}

impl DlocalPaymentsCancelRequest {
    /// The gateway's transaction id of the payment to void.
    pub fn try_from(item: &PaymentsCancelRouterData) -> (r: Result<Self, ConnectorError>)
        ensures
            r matches Ok(c) && c.cancel_id == item.request.connector_transaction_id,
    {
        Ok(DlocalPaymentsCancelRequest { cancel_id: item.request.connector_transaction_id.clone() })
    }
}

/// Body of the Capture call.
#[derive(Debug, PartialEq, Eq)]
pub struct DlocalPaymentsCaptureRequest {
    pub authorization_id: String,
    pub amount: i64,
    pub currency: String,
    pub order_id: String,
}

impl DlocalPaymentsCaptureRequest {
    /// The amount captured: `amount_to_capture` when given, else the
    /// whole authorized amount.
    pub open spec fn captured_amount(data: PaymentsCaptureData) -> i64 {
        match data.amount_to_capture {
            Some(v) => v,
            None => data.amount,
        }
    }

    /// Builds the Capture body.
    pub fn try_from(item: &PaymentsCaptureRouterData) -> (r: Result<Self, ConnectorError>)
        ensures
            r matches Ok(c) && c.authorization_id == item.request.connector_transaction_id
                && c.amount == Self::captured_amount(item.request) && c.currency
                == item.request.currency && c.order_id == item.payment_id,
    {
        let amount_to_capture = match item.request.amount_to_capture {
            Some(val) => val,
            None => item.request.amount,
        };
        Ok(
            DlocalPaymentsCaptureRequest {
                authorization_id: item.request.connector_transaction_id.clone(),
                amount: amount_to_capture,
                currency: item.request.currency.clone(),
                order_id: item.payment_id.clone(),
            },
        )
    }

    pub open spec fn json_members(self) -> Seq<(Seq<char>, FieldView)> {
        seq![
            ("authorization_id"@, FieldView::Text(self.authorization_id@)),
            ("amount"@, FieldView::Int(self.amount as int)),
            ("currency"@, FieldView::Text(self.currency@)),
            ("order_id"@, FieldView::Text(self.order_id@)),
        ]
    }

    /// JSON encoding of the Capture body.
    pub fn encode(&self) -> (r: Option<String>)
        ensures
            opt_view(r) == object_text(self.json_members()),
    {
        let mut ms: Vec<(&str, JsonField)> = Vec::new();
        ms.push(("authorization_id", JsonField::Text(self.authorization_id.clone())));
        ms.push(("amount", JsonField::Int(self.amount)));
        ms.push(("currency", JsonField::Text(self.currency.clone())));
        ms.push(("order_id", JsonField::Text(self.order_id.clone())));
        assert(members_view(ms@) =~= self.json_members());
        object_json(&ms)
    }
}

/// Capture policy: without `amount_to_capture` the whole authorized amount
/// is captured, with `amount_to_capture = Some(v)` exactly `v`.
pub proof fn lemma_capture_amount_policy(data: PaymentsCaptureData)
    ensures
        data.amount_to_capture is None ==> DlocalPaymentsCaptureRequest::captured_amount(data)
            == data.amount,
        data.amount_to_capture matches Some(v) ==> DlocalPaymentsCaptureRequest::captured_amount(
            data,
        ) == v,
{
}

/// The members of the Capture body for `item`.
pub open spec fn capture_members(item: PaymentsCaptureRouterData) -> Seq<(Seq<char>, FieldView)> {
    seq![
        ("authorization_id"@, FieldView::Text(item.request.connector_transaction_id@)),
        ("amount"@, FieldView::Int(DlocalPaymentsCaptureRequest::captured_amount(item.request) as int)),
        ("currency"@, FieldView::Text(item.request.currency@)),
        ("order_id"@, FieldView::Text(item.payment_id@)),
    ]
}

/// Body of the RefundExecute call.
#[derive(Debug, PartialEq, Eq)]
pub struct RefundRequest {
    /// The refund amount in minor units, in decimal.
    pub amount: String,
    pub payment_id: String,
    pub currency: String,
    pub id: String,
    pub notification_url: Option<String>,
}

impl RefundRequest {
    /// Builds the refund body; the amount is the requested refund amount,
    /// never the payment's amount.
    pub fn try_from<F>(item: &RefundsRouterData<F>) -> (r: Result<Self, ConnectorError>)
        ensures
            r matches Ok(rr) && rr.amount@ == int_text(item.request.refund_amount as int)
                && rr.payment_id == item.request.connector_transaction_id && rr.currency
                == item.request.currency && rr.id == item.request.refund_id
                && rr.notification_url == item.request.notification_url,
    {
        Ok(
            RefundRequest {
                amount: i64_text(item.request.refund_amount),
                payment_id: item.request.connector_transaction_id.clone(),
                currency: item.request.currency.clone(),
                id: item.request.refund_id.clone(),
                notification_url: item.request.notification_url.clone(),
            },
        )
    }

    pub open spec fn json_members(self) -> Seq<(Seq<char>, FieldView)> {
        seq![
            ("amount"@, FieldView::Text(self.amount@)),
            ("payment_id"@, FieldView::Text(self.payment_id@)),
            ("currency"@, FieldView::Text(self.currency@)),
            ("id"@, FieldView::Text(self.id@)),
            ("notification_url"@, opt_text_field(opt_view(self.notification_url))),
        ]
    }

    /// JSON encoding of the refund body.
    pub fn encode(&self) -> (r: Option<String>)
        ensures
            opt_view(r) == object_text(self.json_members()),
    {
        let mut ms: Vec<(&str, JsonField)> = Vec::new();
        ms.push(("amount", JsonField::Text(self.amount.clone())));
        ms.push(("payment_id", JsonField::Text(self.payment_id.clone())));
        ms.push(("currency", JsonField::Text(self.currency.clone())));
        ms.push(("id", JsonField::Text(self.id.clone())));
        ms.push(("notification_url", opt_text(&self.notification_url)));
        assert(members_view(ms@) =~= self.json_members());
        object_json(&ms)
    }
}

/// The members of the refund body for `item`.
pub open spec fn refund_members<F>(item: RefundsRouterData<F>) -> Seq<(Seq<char>, FieldView)> {
    seq![
        ("amount"@, FieldView::Text(int_text(item.request.refund_amount as int))),
        ("payment_id"@, FieldView::Text(item.request.connector_transaction_id@)),
        ("currency"@, FieldView::Text(item.request.currency@)),
        ("id"@, FieldView::Text(item.request.refund_id@)),
        ("notification_url"@, opt_text_field(opt_view(item.request.notification_url))),
    ]
}

/// Path data of the RefundSync call.
#[derive(Clone, Debug, PartialEq, Eq)]
pub struct DlocalRefundsSyncRequest {
    pub refund_id: String,
}

impl DlocalRefundsSyncRequest {
    /// The gateway's refund id when known, else the platform's refund id.
    pub fn try_from(item: &RefundSyncRouterData) -> (r: Result<Self, ConnectorError>)
        ensures
            r matches Ok(s) && s.refund_id == match item.request.connector_refund_id {
                Some(id) => id,
                None => item.request.refund_id,
            },
    {
        let refund_id = match &item.request.connector_refund_id {
            Some(val) => val.clone(),
            None => item.request.refund_id.clone(),
        };
        Ok(DlocalRefundsSyncRequest { refund_id })
    }
}

} // verus!
