use vstd::prelude::*;

use crate::enums::CaptureMethod;
use crate::types::{
    AddressDetails, CardData, ConnectorAuthType, MandateIds, PaymentAddress, PaymentMethodData,
    PaymentsAuthorizeData, PaymentsCancelData, PaymentsCaptureData, PaymentsSyncData,
    RefundsData, ResponseId, WalletData,
};

verus! {

/// An exact copy of a value: what carrying a borrowed snapshot of the
/// orchestrator's data forward needs.
pub trait Duplicate: Sized {
    fn duplicate(&self) -> (r: Self)
        ensures
            r == *self,
    ;
}

impl Duplicate for String {
    fn duplicate(&self) -> (r: Self) {
        self.clone()
    }
}

impl Duplicate for i64 {
    fn duplicate(&self) -> (r: Self) {
        *self
    }
}

impl Duplicate for bool {
    fn duplicate(&self) -> (r: Self) {
        *self
    }
}

impl Duplicate for CaptureMethod {
    fn duplicate(&self) -> (r: Self) {
        *self
    }
}

impl<A: Duplicate> Duplicate for Option<A> {
    fn duplicate(&self) -> (r: Self) {
        match self {
            Some(a) => Some(a.duplicate()),
            None => None,
        }
    }
}

impl Duplicate for ConnectorAuthType {
    fn duplicate(&self) -> (r: Self) {
        match self {
            ConnectorAuthType::HeaderKey { api_key } => ConnectorAuthType::HeaderKey {
                api_key: api_key.duplicate(),
            },
            ConnectorAuthType::BodyKey { api_key, key1 } => ConnectorAuthType::BodyKey {
                api_key: api_key.duplicate(),
                key1: key1.duplicate(),
            },
            ConnectorAuthType::SignatureKey { api_key, key1, api_secret } =>
                ConnectorAuthType::SignatureKey {
                api_key: api_key.duplicate(),
                key1: key1.duplicate(),
                api_secret: api_secret.duplicate(),
            },
            ConnectorAuthType::NoKey => ConnectorAuthType::NoKey,
        }
    }
}

impl Duplicate for AddressDetails {
    fn duplicate(&self) -> (r: Self) {
        AddressDetails {
            first_name: self.first_name.duplicate(),
            last_name: self.last_name.duplicate(),
            line1: self.line1.duplicate(),
            city: self.city.duplicate(),
            zip: self.zip.duplicate(),
            country: self.country.duplicate(),
        }
    }
}

impl Duplicate for PaymentAddress {
    fn duplicate(&self) -> (r: Self) {
        PaymentAddress { billing: self.billing.duplicate(), shipping: self.shipping.duplicate() }
    }
}

impl Duplicate for CardData {
    fn duplicate(&self) -> (r: Self) {
        CardData {
            card_number: self.card_number.duplicate(),
            card_exp_month: self.card_exp_month.duplicate(),
            card_exp_year: self.card_exp_year.duplicate(),
            card_holder_name: self.card_holder_name.duplicate(),
            card_cvc: self.card_cvc.duplicate(),
        }
    }
}

impl Duplicate for WalletData {
    fn duplicate(&self) -> (r: Self) {
        WalletData { issuer_name: self.issuer_name.duplicate() }
    }
}

impl Duplicate for PaymentMethodData {
    fn duplicate(&self) -> (r: Self) {
        match self {
            PaymentMethodData::Card(c) => PaymentMethodData::Card(c.duplicate()),
            PaymentMethodData::Wallet(w) => PaymentMethodData::Wallet(w.duplicate()),
            PaymentMethodData::BankTransfer => PaymentMethodData::BankTransfer,
            PaymentMethodData::PayLater => PaymentMethodData::PayLater,
            PaymentMethodData::Paypal => PaymentMethodData::Paypal,
        }
    }
}

impl Duplicate for MandateIds {
    fn duplicate(&self) -> (r: Self) {
        MandateIds { mandate_id: self.mandate_id.duplicate() }
    }
}

impl Duplicate for ResponseId {
    fn duplicate(&self) -> (r: Self) {
        match self {
            ResponseId::ConnectorTransactionId(s) => ResponseId::ConnectorTransactionId(
                s.duplicate(),
            ),
            ResponseId::EncodedData(s) => ResponseId::EncodedData(s.duplicate()),
            ResponseId::NoResponseId => ResponseId::NoResponseId,
        }
    }
}

impl Duplicate for PaymentsAuthorizeData {
    fn duplicate(&self) -> (r: Self) {
        PaymentsAuthorizeData {
            amount: self.amount,
            currency: self.currency.duplicate(),
            payment_method_data: self.payment_method_data.duplicate(),
            capture_method: self.capture_method.duplicate(),
            email: self.email.duplicate(),
            mandate_id: self.mandate_id.duplicate(),
            payer_document: self.payer_document.duplicate(),
            force_three_ds: self.force_three_ds.duplicate(),
        }
    }
}

impl Duplicate for PaymentsSyncData {
    fn duplicate(&self) -> (r: Self) {
        PaymentsSyncData { connector_transaction_id: self.connector_transaction_id.duplicate() }
    }
}

impl Duplicate for PaymentsCaptureData {
    fn duplicate(&self) -> (r: Self) {
        PaymentsCaptureData {
            amount_to_capture: self.amount_to_capture.duplicate(),
            amount: self.amount,
            currency: self.currency.duplicate(),
            connector_transaction_id: self.connector_transaction_id.duplicate(),
        }
    }
}

impl Duplicate for PaymentsCancelData {
    fn duplicate(&self) -> (r: Self) {
        PaymentsCancelData {
            connector_transaction_id: self.connector_transaction_id.duplicate(),
            cancellation_reason: self.cancellation_reason.duplicate(),
        }
    }
}

impl Duplicate for RefundsData {
    fn duplicate(&self) -> (r: Self) {
        RefundsData {
            refund_id: self.refund_id.duplicate(),
            connector_transaction_id: self.connector_transaction_id.duplicate(),
            connector_refund_id: self.connector_refund_id.duplicate(),
            currency: self.currency.duplicate(),
            amount: self.amount,
            refund_amount: self.refund_amount,
            notification_url: self.notification_url.duplicate(),
        }
    }
}

} // verus!
