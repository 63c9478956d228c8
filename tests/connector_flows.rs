use std::marker::PhantomData;

use dlocal::connector::Dlocal;
use dlocal::date::{date_as_yyyymmddthhmmssmmmz, DateTimeParts};
use dlocal::enums::{AttemptStatus, CaptureMethod, RefundStatus as CanonicalRefundStatus};
use dlocal::errors::ConnectorError;
use dlocal::flows::ConnectorIntegration;
use dlocal::redirect::{form_fields_from_pairs, to_redirection_data};
use dlocal::requests::{
    DlocalPaymentsCancelRequest, DlocalPaymentsCaptureRequest, DlocalPaymentsRequest,
    DlocalPaymentsSyncRequest, DlocalRefundsSyncRequest, PaymentMethodFlow, PaymentMethodId,
    RefundRequest,
};
use dlocal::responses::{
    DlocalErrorResponse, DlocalPaymentStatus, DlocalPaymentsCancelResponse,
    DlocalPaymentsCaptureResponse, DlocalPaymentsResponse, DlocalPaymentsSyncResponse,
    RefundResponse, RefundStatus, ThreeDSecureResData,
};
use dlocal::signing::{authorization_value, sign_request};
use dlocal::text::{i64_text, u64_padded_text};
use dlocal::types::{
    AddressDetails, Authorize, CallConnectorAction, CardData, ConnectorAuthType,
    ConnectorParams, Connectors, ErrorResponse, Execute, MandateIds, Method, PSync,
    PaymentAddress, PaymentMethodData, PaymentsAuthorizeData, PaymentsCancelData,
    PaymentsCaptureData, PaymentsResponseData, PaymentsSyncData, RSync, RefundsData,
    RefundsResponseData, Response, ResponseId, ResponseRouterData, RouterData, Void, WalletData,
};

fn auth() -> ConnectorAuthType {
    ConnectorAuthType::SignatureKey {
        api_key: "login".to_string(),
        key1: "trans".to_string(),
        api_secret: "secret".to_string(),
    }
}

fn connectors() -> Connectors {
    Connectors { dlocal: ConnectorParams { base_url: "https://sandbox.dlocal.com/".to_string() } }
}

fn date() -> DateTimeParts {
    DateTimeParts { year: 2023, month: 1, day: 2, hour: 3, minute: 4, second: 5, millisecond: 6 }
}

fn billing() -> PaymentAddress {
    PaymentAddress {
        billing: Some(AddressDetails {
            first_name: Some("Ana".to_string()),
            last_name: Some("Silva".to_string()),
            line1: None,
            city: None,
            zip: None,
            country: Some("BR".to_string()),
        }),
        shipping: None,
    }
}

fn snapshot<F, T, R>(request: T) -> RouterData<F, T, R> {
    RouterData {
        flow: PhantomData,
        merchant_id: "merchant_1".to_string(),
        connector: "dlocal".to_string(),
        payment_id: "pay_1".to_string(),
        attempt_id: "att_1".to_string(),
        status: AttemptStatus::Started,
        connector_auth_type: auth(),
        description: Some("order".to_string()),
        return_url: Some("https://shop.example/return".to_string()),
        address: billing(),
        request,
        response: Err(ErrorResponse {
            status_code: 0,
            code: "none".to_string(),
            message: "none".to_string(),
            reason: None,
        }),
    }
}

fn card() -> CardData {
    CardData {
        card_number: "4111111111111111".to_string(),
        card_exp_month: "10".to_string(),
        card_exp_year: "2030".to_string(),
        card_holder_name: "Ana Silva".to_string(),
        card_cvc: "123".to_string(),
    }
}

fn authorize_data(method: PaymentMethodData) -> PaymentsAuthorizeData {
    PaymentsAuthorizeData {
        amount: 1000,
        currency: "BRL".to_string(),
        payment_method_data: method,
        capture_method: Some(CaptureMethod::Automatic),
        email: Some("ana@example.com".to_string()),
        mandate_id: None,
        payer_document: "12345678901".to_string(),
        force_three_ds: None,
    }
}

fn authorize_item(method: PaymentMethodData) -> RouterData<Authorize, PaymentsAuthorizeData, PaymentsResponseData> {
    snapshot(authorize_data(method))
}

fn refund_data() -> RefundsData {
    RefundsData {
        refund_id: "ref_1".to_string(),
        connector_transaction_id: "T-100".to_string(),
        connector_refund_id: None,
        currency: "BRL".to_string(),
        amount: 1000,
        refund_amount: 250,
        notification_url: Some("https://shop.example/hook".to_string()),
    }
}

fn payments_response(status: DlocalPaymentStatus, url: Option<&str>) -> DlocalPaymentsResponse {
    DlocalPaymentsResponse {
        status,
        id: "D-1".to_string(),
        three_dsecure: url.map(|u| ThreeDSecureResData { redirect_url: Some(u.to_string()) }),
    }
}

#[test]
fn payment_status_map_is_total() {
    let table = [
        (DlocalPaymentStatus::Authorized, AttemptStatus::Authorized),
        (DlocalPaymentStatus::Verified, AttemptStatus::Authorized),
        (DlocalPaymentStatus::Paid, AttemptStatus::Charged),
        (DlocalPaymentStatus::Pending, AttemptStatus::AuthenticationPending),
        (DlocalPaymentStatus::Cancelled, AttemptStatus::Voided),
        (DlocalPaymentStatus::Rejected, AttemptStatus::AuthenticationFailed),
    ];
    for (gateway, canonical) in table {
        assert_eq!(AttemptStatus::from(gateway), canonical);
        assert_eq!(AttemptStatus::from(gateway), AttemptStatus::from(gateway));
    }
}

#[test]
fn refund_status_map_is_total() {
    assert_eq!(CanonicalRefundStatus::from(RefundStatus::Success), CanonicalRefundStatus::Success);
    assert_eq!(CanonicalRefundStatus::from(RefundStatus::Pending), CanonicalRefundStatus::Pending);
    assert_eq!(
        CanonicalRefundStatus::from(RefundStatus::Rejected),
        CanonicalRefundStatus::ManualReview
    );
    assert_eq!(CanonicalRefundStatus::from(RefundStatus::Cancelled), CanonicalRefundStatus::Failure);
}

#[test]
fn authorize_card_body_fields() {
    let mut item = authorize_item(PaymentMethodData::Card(card()));
    item.request.mandate_id = Some(MandateIds { mandate_id: "man_1".to_string() });
    let body = DlocalPaymentsRequest::try_from(&item).unwrap();
    assert_eq!(body.amount, 1000);
    assert_eq!(body.currency, "BRL");
    assert_eq!(body.country, "BR");
    assert_eq!(body.payment_method_id, PaymentMethodId::Card);
    assert_eq!(body.payment_method_flow, PaymentMethodFlow::Direct);
    assert_eq!(body.payer.name, Some("Ana".to_string()));
    assert_eq!(body.payer.email, Some("ana@example.com".to_string()));
    assert_eq!(body.payer.document, "12345678901");
    let c = body.card.unwrap();
    assert_eq!(c.capture, "true");
    assert_eq!(c.installments_id, Some("man_1".to_string()));
    assert_eq!(c.installments, Some("1".to_string()));
    assert_eq!(c.number, "4111111111111111");
    assert_eq!(body.order_id, "pay_1");
    assert_eq!(body.three_dsecure, None);
    assert_eq!(body.callback_url, Some("https://shop.example/return".to_string()));
}

#[test]
fn authorize_manual_capture_is_false() {
    let mut item = authorize_item(PaymentMethodData::Card(card()));
    item.request.capture_method = Some(CaptureMethod::Manual);
    let body = DlocalPaymentsRequest::try_from(&item).unwrap();
    let c = body.card.unwrap();
    assert_eq!(c.capture, "false");
    assert_eq!(c.installments_id, None);
    assert_eq!(c.installments, None);
}

#[test]
fn authorize_wallet_redirects_without_card() {
    let item = authorize_item(PaymentMethodData::Wallet(WalletData { issuer_name: "mp".to_string() }));
    let body = DlocalPaymentsRequest::try_from(&item).unwrap();
    assert_eq!(body.payment_method_id, PaymentMethodId::MP);
    assert_eq!(body.payment_method_flow, PaymentMethodFlow::ReDirect);
    assert!(body.card.is_none());
}

#[test]
fn authorize_missing_email_is_missing_field() {
    let mut item = authorize_item(PaymentMethodData::Card(card()));
    item.request.email = None;
    assert_eq!(
        DlocalPaymentsRequest::try_from(&item),
        Err(ConnectorError::MissingRequiredField { field_name: "email_id".to_string() })
    );
}

#[test]
fn authorize_missing_billing_and_country() {
    let mut item = authorize_item(PaymentMethodData::Card(card()));
    item.address.billing.as_mut().unwrap().country = None;
    assert_eq!(
        DlocalPaymentsRequest::try_from(&item),
        Err(ConnectorError::MissingRequiredField {
            field_name: "billing.address.country".to_string()
        })
    );
    item.address.billing = None;
    assert_eq!(
        DlocalPaymentsRequest::try_from(&item),
        Err(ConnectorError::MissingRequiredField { field_name: "billing.address".to_string() })
    );
}

#[test]
fn authorize_unsupported_method_is_not_implemented() {
    for method in [PaymentMethodData::BankTransfer, PaymentMethodData::PayLater, PaymentMethodData::Paypal] {
        let item = authorize_item(method);
        assert!(matches!(
            DlocalPaymentsRequest::try_from(&item),
            Err(ConnectorError::NotImplemented(_))
        ));
        assert!(matches!(
            Dlocal.get_request_body(&item),
            Err(ConnectorError::NotImplemented(_))
        ));
        assert!(matches!(
            Dlocal.build_request(&item, &connectors(), &date()),
            Err(ConnectorError::NotImplemented(_))
        ));
    }
}

#[test]
fn authorize_body_json_text() {
    let mut item = authorize_item(PaymentMethodData::Wallet(WalletData { issuer_name: "mp".to_string() }));
    item.request.force_three_ds = Some(true);
    let body = Dlocal.get_request_body(&item).unwrap().unwrap();
    assert_eq!(
        body,
        "{\"amount\":1000,\"currency\":\"BRL\",\"country\":\"BR\",\"payment_method_id\":\"MP\",\
         \"payment_method_flow\":\"REDIRECT\",\"payer\":{\"name\":\"Ana\",\"email\":\"ana@example.com\",\
         \"document\":\"12345678901\"},\"card\":null,\"order_id\":\"pay_1\",\
         \"three_dsecure\":{\"force\":true},\"callback_url\":\"https://shop.example/return\"}"
    );
    let value: serde_json::Value = serde_json::from_str(&body).unwrap();
    assert_eq!(value["payer"]["document"], "12345678901");
}

#[test]
fn authorize_card_body_is_valid_json() {
    let mut item = authorize_item(PaymentMethodData::Card(card()));
    item.address.billing.as_mut().unwrap().first_name = Some("A \"quoted\" name".to_string());
    let body = Dlocal.get_request_body(&item).unwrap().unwrap();
    let value: serde_json::Value = serde_json::from_str(&body).unwrap();
    assert_eq!(value["payer"]["name"], "A \"quoted\" name");
    assert_eq!(value["card"]["holder_name"], "Ana Silva");
    assert_eq!(value["card"]["capture"], "true");
    assert_eq!(value["card"]["installments"], serde_json::Value::Null);
    assert_eq!(value["amount"], 1000);
}

#[test]
fn authorize_round_trip_keeps_snapshot() {
    let item = authorize_item(PaymentMethodData::Card(card()));
    let body = DlocalPaymentsRequest::try_from(&item).unwrap();
    let res = Response { status_code: 200, response: Some(payments_response(DlocalPaymentStatus::Paid, None)) };
    let after = Dlocal.handle_response(&item, res).unwrap();
    assert_eq!(after.status, AttemptStatus::Charged);
    assert_eq!(after.merchant_id, item.merchant_id);
    assert_eq!(after.connector, item.connector);
    assert_eq!(after.payment_id, body.order_id);
    assert_eq!(after.attempt_id, item.attempt_id);
    assert_eq!(after.connector_auth_type, item.connector_auth_type);
    assert_eq!(after.description, item.description);
    assert_eq!(after.return_url, item.return_url);
    assert_eq!(after.address, item.address);
    assert_eq!(after.request, item.request);
    assert_eq!(
        after.response,
        Ok(PaymentsResponseData::TransactionResponse {
            resource_id: ResponseId::ConnectorTransactionId("D-1".to_string()),
            redirection_data: None,
            redirect: false,
            mandate_reference: None,
        })
    );
}

#[test]
fn response_transformer_overlays_status() {
    let item = authorize_item(PaymentMethodData::Card(card()));
    let data = ResponseRouterData {
        response: payments_response(DlocalPaymentStatus::Verified, None),
        data: item,
        http_code: 200,
    };
    let after = data.try_into_router_data().unwrap();
    assert_eq!(after.status, AttemptStatus::Authorized);
    assert_eq!(after.payment_id, "pay_1");
}

#[test]
fn sync_capture_cancel_responses_overlay() {
    let sync = ResponseRouterData {
        response: DlocalPaymentsSyncResponse { status: DlocalPaymentStatus::Pending, id: "S".to_string() },
        data: snapshot::<PSync, PaymentsSyncData, PaymentsResponseData>(PaymentsSyncData {
            connector_transaction_id: ResponseId::ConnectorTransactionId("S".to_string()),
        }),
        http_code: 200,
    };
    assert_eq!(sync.try_into_router_data().unwrap().status, AttemptStatus::AuthenticationPending);
    let capture = ResponseRouterData {
        response: DlocalPaymentsCaptureResponse { status: DlocalPaymentStatus::Paid, id: "C".to_string() },
        data: snapshot::<Authorize, PaymentsAuthorizeData, PaymentsResponseData>(authorize_data(
            PaymentMethodData::Card(card()),
        )),
        http_code: 200,
    };
    assert_eq!(capture.try_into_router_data().unwrap().status, AttemptStatus::Charged);
    let cancel = ResponseRouterData {
        response: DlocalPaymentsCancelResponse { status: DlocalPaymentStatus::Cancelled, id: "V".to_string() },
        data: snapshot::<Void, PaymentsCancelData, PaymentsResponseData>(PaymentsCancelData {
            connector_transaction_id: "V".to_string(),
            cancellation_reason: None,
        }),
        http_code: 200,
    };
    let after = cancel.try_into_router_data().unwrap();
    assert_eq!(after.status, AttemptStatus::Voided);
    assert_eq!(
        after.response,
        Ok(PaymentsResponseData::TransactionResponse {
            resource_id: ResponseId::ConnectorTransactionId("V".to_string()),
            redirection_data: None,
            redirect: false,
            mandate_reference: None,
        })
    );
}

#[test]
fn handle_response_with_redirect() {
    let item = authorize_item(PaymentMethodData::Card(card()));
    let res = Response {
        status_code: 200,
        response: Some(payments_response(
            DlocalPaymentStatus::Pending,
            Some("https://pay.example/challenge?token=abc&step=2"),
        )),
    };
    let after = Dlocal.handle_response(&item, res).unwrap();
    assert_eq!(after.status, AttemptStatus::AuthenticationPending);
    match after.response {
        Ok(PaymentsResponseData::TransactionResponse { redirection_data, redirect, .. }) => {
            assert!(redirect);
            let form = redirection_data.unwrap();
            assert_eq!(form.method, Method::Get);
            assert_eq!(form.url, "https://pay.example/challenge?token=abc&step=2");
        }
        other => panic!("unexpected outcome {:?}", other),
    }
}

#[test]
fn handle_response_errors() {
    let item = authorize_item(PaymentMethodData::Card(card()));
    let res: Response<DlocalPaymentsResponse> = Response { status_code: 200, response: None };
    assert_eq!(
        Dlocal.handle_response(&item, res),
        Err(ConnectorError::ResponseDeserializationFailed)
    );
    let res = Response {
        status_code: 200,
        response: Some(payments_response(DlocalPaymentStatus::Pending, Some("not a url"))),
    };
    assert_eq!(Dlocal.handle_response(&item, res), Err(ConnectorError::ResponseHandlingFailed));
}

#[test]
fn redirect_extraction_scenario() {
    let url = "https://pay.example/challenge?token=abc&step=2".to_string();
    let form = to_redirection_data(Some(url.clone())).unwrap().unwrap();
    assert_eq!(form.url, url);
    assert_eq!(form.method, Method::Get);
    let mut fields = form.form_fields.clone();
    fields.sort();
    assert_eq!(
        fields,
        vec![("step".to_string(), "2".to_string()), ("token".to_string(), "abc".to_string())]
    );
    assert_eq!(to_redirection_data(None), Ok(None));
}

#[test]
fn redirect_malformed_url_fails() {
    assert_eq!(
        to_redirection_data(Some("::not a url".to_string())),
        Err(ConnectorError::ResponseHandlingFailed)
    );
}

#[test]
fn redirect_duplicate_keys_last_wins() {
    let form = to_redirection_data(Some("https://p.example/x?a=1&b=2&a=3&c=%20d".to_string()))
        .unwrap()
        .unwrap();
    let mut fields = form.form_fields;
    fields.sort();
    assert_eq!(
        fields,
        vec![
            ("a".to_string(), "3".to_string()),
            ("b".to_string(), "2".to_string()),
            ("c".to_string(), " d".to_string()),
        ]
    );
}

#[test]
fn form_fields_keep_unique_names() {
    let pairs = vec![
        ("k".to_string(), "1".to_string()),
        ("k".to_string(), "2".to_string()),
        ("j".to_string(), "0".to_string()),
    ];
    assert_eq!(
        form_fields_from_pairs(pairs),
        vec![("k".to_string(), "2".to_string()), ("j".to_string(), "0".to_string())]
    );
    assert_eq!(form_fields_from_pairs(vec![]), vec![]);
}

#[test]
fn capture_amount_defaults_to_authorized() {
    let mut item = snapshot::<dlocal::types::Capture, PaymentsCaptureData, PaymentsResponseData>(
        PaymentsCaptureData {
            amount_to_capture: None,
            amount: 1000,
            currency: "USD".to_string(),
            connector_transaction_id: "T1".to_string(),
        },
    );
    let body = DlocalPaymentsCaptureRequest::try_from(&item).unwrap();
    assert_eq!(body.amount, 1000);
    assert_eq!(body.authorization_id, "T1");
    assert_eq!(body.order_id, "pay_1");
    item.request.amount_to_capture = Some(400);
    assert_eq!(DlocalPaymentsCaptureRequest::try_from(&item).unwrap().amount, 400);
    assert_eq!(
        Dlocal.get_request_body(&item).unwrap().unwrap(),
        "{\"authorization_id\":\"T1\",\"amount\":400,\"currency\":\"USD\",\"order_id\":\"pay_1\"}"
    );
    assert_eq!(Dlocal.get_url(&item, &connectors()).unwrap(), "https://sandbox.dlocal.com/payments");
}

#[test]
fn refund_body_uses_refund_amount() {
    let item = snapshot::<Execute, RefundsData, RefundsResponseData>(refund_data());
    let body = RefundRequest::try_from(&item).unwrap();
    assert_eq!(body.amount, "250");
    assert_eq!(body.payment_id, "T-100");
    assert_eq!(body.id, "ref_1");
    assert_eq!(
        Dlocal.get_request_body(&item).unwrap().unwrap(),
        "{\"amount\":\"250\",\"payment_id\":\"T-100\",\"currency\":\"BRL\",\"id\":\"ref_1\",\
         \"notification_url\":\"https://shop.example/hook\"}"
    );
    assert_eq!(Dlocal.get_url(&item, &connectors()).unwrap(), "https://sandbox.dlocal.com/refunds");
}

#[test]
fn refund_sync_id_prefers_gateway_id() {
    let mut item = snapshot::<RSync, RefundsData, RefundsResponseData>(refund_data());
    assert_eq!(DlocalRefundsSyncRequest::try_from(&item).unwrap().refund_id, "ref_1");
    item.request.connector_refund_id = Some("R-9".to_string());
    assert_eq!(DlocalRefundsSyncRequest::try_from(&item).unwrap().refund_id, "R-9");
    assert_eq!(
        Dlocal.get_url(&item, &connectors()).unwrap(),
        "https://sandbox.dlocal.com/refunds/R-9/status"
    );
}

#[test]
fn refund_response_keeps_payment_status() {
    let item = snapshot::<Execute, RefundsData, RefundsResponseData>(refund_data());
    let res = Response {
        status_code: 200,
        response: Some(RefundResponse { id: "R-1".to_string(), status: RefundStatus::Rejected }),
    };
    let after = Dlocal.handle_response(&item, res).unwrap();
    assert_eq!(after.status, AttemptStatus::Started);
    assert_eq!(
        after.response,
        Ok(RefundsResponseData {
            connector_refund_id: "R-1".to_string(),
            refund_status: CanonicalRefundStatus::ManualReview,
        })
    );
    let sync_item = snapshot::<RSync, RefundsData, RefundsResponseData>(refund_data());
    let res: Response<RefundResponse> = Response { status_code: 200, response: None };
    assert_eq!(
        Dlocal.handle_response(&sync_item, res),
        Err(ConnectorError::ResponseDeserializationFailed)
    );
    let data = ResponseRouterData {
        response: RefundResponse { id: "R-2".to_string(), status: RefundStatus::Success },
        data: snapshot::<RSync, RefundsData, RefundsResponseData>(refund_data()),
        http_code: 200,
    };
    assert_eq!(
        data.try_into_router_data().unwrap().response,
        Ok(RefundsResponseData {
            connector_refund_id: "R-2".to_string(),
            refund_status: CanonicalRefundStatus::Success,
        })
    );
}

#[test]
fn sync_request_needs_transaction_id() {
    let mut item = snapshot::<PSync, PaymentsSyncData, PaymentsResponseData>(PaymentsSyncData {
        connector_transaction_id: ResponseId::ConnectorTransactionId("D-7".to_string()),
    });
    assert_eq!(DlocalPaymentsSyncRequest::try_from(&item).unwrap().authz_id, "D-7");
    assert_eq!(
        Dlocal.get_url(&item, &connectors()).unwrap(),
        "https://sandbox.dlocal.com/payments/D-7/status"
    );
    let request = Dlocal.build_request(&item, &connectors(), &date()).unwrap().unwrap();
    assert_eq!(request.method, Method::Get);
    assert_eq!(request.body, None);
    item.request.connector_transaction_id = ResponseId::NoResponseId;
    assert!(DlocalPaymentsSyncRequest::try_from(&item).is_err());
    assert_eq!(
        Dlocal.build_request(&item, &connectors(), &date()),
        Err(ConnectorError::MissingConnectorTransactionID)
    );
}

#[test]
fn cancel_request_url_and_method() {
    let item = snapshot::<Void, PaymentsCancelData, PaymentsResponseData>(PaymentsCancelData {
        connector_transaction_id: "D-8".to_string(),
        cancellation_reason: None,
    });
    assert_eq!(DlocalPaymentsCancelRequest::try_from(&item).unwrap().cancel_id, "D-8");
    let request = Dlocal.build_request(&item, &connectors(), &date()).unwrap().unwrap();
    assert_eq!(request.method, Method::Post);
    assert_eq!(request.url, "https://sandbox.dlocal.com/payments/D-8/cancel");
    assert_eq!(request.body, None);
    assert_eq!(Dlocal.get_request_body(&item), Ok(None));
}

#[test]
fn headers_are_complete_and_signed() {
    let item = authorize_item(PaymentMethodData::Card(card()));
    let headers = Dlocal.get_headers(&item, &connectors(), &date()).unwrap();
    let body = Dlocal.get_request_body(&item).unwrap().unwrap();
    let expected_sig =
        sign_request("login", "secret", "20230102T030405.006Z", &body).unwrap();
    assert_eq!(
        headers,
        vec![
            ("Authorization".to_string(), expected_sig),
            ("X-Login".to_string(), "login".to_string()),
            ("X-Trans-Key".to_string(), "trans".to_string()),
            ("X-Version".to_string(), "2.1".to_string()),
            ("X-Date".to_string(), "20230102T030405.006Z".to_string()),
            ("Content-Type".to_string(), "application/json".to_string()),
        ]
    );
    let request = Dlocal.build_request(&item, &connectors(), &date()).unwrap().unwrap();
    assert_eq!(request.method, Method::Post);
    assert_eq!(request.url, "https://sandbox.dlocal.com/secure_payments");
    assert_eq!(request.headers, headers);
    assert_eq!(request.body, Some(body));
}

#[test]
fn headers_reject_wrong_auth_and_bad_date() {
    let mut item = authorize_item(PaymentMethodData::Card(card()));
    let bad_date = DateTimeParts { month: 13, ..date() };
    assert_eq!(
        Dlocal.get_headers(&item, &connectors(), &bad_date),
        Err(ConnectorError::RequestEncodingFailed)
    );
    item.connector_auth_type = ConnectorAuthType::HeaderKey { api_key: "k".to_string() };
    assert_eq!(
        Dlocal.get_headers(&item, &connectors(), &date()),
        Err(ConnectorError::FailedToObtainAuthType)
    );
    assert_eq!(
        Dlocal.build_headers(&ConnectorAuthType::NoKey, &date(), None),
        Err(ConnectorError::FailedToObtainAuthType)
    );
}

#[test]
fn signature_known_vector() {
    // HMAC-SHA-256 of "what do ya want for nothing?" under "Jefe" (RFC 4231, case 2).
    assert_eq!(
        sign_request("what do ya want ", "Jefe", "for ", "nothing?").unwrap(),
        "V2-HMAC-SHA256, Signature: 5bdcc146bf60754e6a042426089575c75a003f089d2739839dec58b964ec3843"
    );
}

#[test]
fn signature_is_deterministic_and_input_sensitive() {
    let a = sign_request("login", "secret", "20230102T030405.006Z", "{}").unwrap();
    let b = sign_request("login", "secret", "20230102T030405.006Z", "{}").unwrap();
    assert_eq!(a, b);
    assert_ne!(a, sign_request("login2", "secret", "20230102T030405.006Z", "{}").unwrap());
    assert_ne!(a, sign_request("login", "secret2", "20230102T030405.006Z", "{}").unwrap());
    assert_ne!(a, sign_request("login", "secret", "20230102T030405.007Z", "{}").unwrap());
    assert_ne!(a, sign_request("login", "secret", "20230102T030405.006Z", "{ }").unwrap());
}

#[test]
fn timestamp_format() {
    assert_eq!(date_as_yyyymmddthhmmssmmmz(&date()), Some("20230102T030405.006Z".to_string()));
    let leap = DateTimeParts { year: 2024, month: 2, day: 29, hour: 23, minute: 59, second: 59, millisecond: 999 };
    assert_eq!(date_as_yyyymmddthhmmssmmmz(&leap), Some("20240229T235959.999Z".to_string()));
    assert_eq!(date_as_yyyymmddthhmmssmmmz(&DateTimeParts { year: 2023, ..leap }), None);
    assert_eq!(date_as_yyyymmddthhmmssmmmz(&DateTimeParts { year: 10000, ..date() }), None);
    assert_eq!(date_as_yyyymmddthhmmssmmmz(&DateTimeParts { hour: 24, ..date() }), None);
}

#[test]
fn decimal_text() {
    assert_eq!(i64_text(0), "0");
    assert_eq!(i64_text(-5001), "-5001");
    assert_eq!(i64_text(i64::MIN), "-9223372036854775808");
    assert_eq!(i64_text(i64::MAX), "9223372036854775807");
    assert_eq!(u64_padded_text(7, 3), "007");
    assert_eq!(u64_padded_text(2023, 2), "23");
}

#[test]
fn error_response_normalized() {
    let res = Response {
        status_code: 400,
        response: Some(DlocalErrorResponse {
            code: 5001,
            message: "Invalid request".to_string(),
            param: Some("amount".to_string()),
        }),
    };
    assert_eq!(
        Dlocal.build_error_response(res),
        Ok(ErrorResponse {
            status_code: 400,
            code: "5001".to_string(),
            message: "Invalid request".to_string(),
            reason: Some("amount".to_string()),
        })
    );
}

#[test]
fn error_response_without_code_fails() {
    let res: Response<DlocalErrorResponse> = Response { status_code: 500, response: None };
    assert_eq!(Dlocal.build_error_response(res), Err(ConnectorError::ResponseDeserializationFailed));
}

#[test]
fn auth_type_resolution() {
    let resolved = dlocal::auth::DlocalAuthType::try_from(&auth()).unwrap();
    assert_eq!(resolved.x_login, "login");
    assert_eq!(resolved.x_trans_key, "trans");
    assert_eq!(resolved.secret, "secret");
    assert!(matches!(
        dlocal::auth::DlocalAuthType::try_from(&ConnectorAuthType::BodyKey {
            api_key: "a".to_string(),
            key1: "b".to_string()
        }),
        Err(ConnectorError::FailedToObtainAuthType)
    ));
}

#[test]
fn webhooks_and_redirect_completion() {
    assert_eq!(Dlocal.get_webhook_object_reference_id(b"{}"), Err(ConnectorError::WebhooksNotImplemented));
    assert_eq!(Dlocal.get_webhook_event_type(b"{}"), Err(ConnectorError::WebhooksNotImplemented));
    assert_eq!(Dlocal.get_webhook_resource_object(b"{}"), Err(ConnectorError::WebhooksNotImplemented));
    assert_eq!(Dlocal.get_flow_type("a=b"), Ok(CallConnectorAction::Trigger));
    assert_eq!(Dlocal.id(), "dlocal");
    assert_eq!(Dlocal.common_get_content_type(), "application/json");
    assert_eq!(Dlocal.base_url(&connectors()), "https://sandbox.dlocal.com/");
}

#[test]
fn authorization_value_is_prefixed_hex() {
    assert_eq!(authorization_value(&[0x00, 0xff, 0x1a]), "V2-HMAC-SHA256, Signature: 00ff1a");
    assert_eq!(authorization_value(&[]), "V2-HMAC-SHA256, Signature: ");
}

#[test]
fn bodiless_flow_signs_empty_body() {
    let item = snapshot::<PSync, PaymentsSyncData, PaymentsResponseData>(PaymentsSyncData {
        connector_transaction_id: ResponseId::ConnectorTransactionId("D-7".to_string()),
    });
    let headers = Dlocal.get_headers(&item, &connectors(), &date()).unwrap();
    let expected = sign_request("login", "secret", "20230102T030405.006Z", "").unwrap();
    assert_eq!(headers[0], ("Authorization".to_string(), expected));
    assert_eq!(headers.len(), 6);
}

#[test]
fn json_strings_are_escaped() {
    let mut item = snapshot::<dlocal::types::Capture, PaymentsCaptureData, PaymentsResponseData>(
        PaymentsCaptureData {
            amount_to_capture: Some(-5),
            amount: 1000,
            currency: "US\"D".to_string(),
            connector_transaction_id: "line\nbreak".to_string(),
        },
    );
    item.payment_id = "p\\1".to_string();
    assert_eq!(
        Dlocal.get_request_body(&item).unwrap().unwrap(),
        "{\"authorization_id\":\"line\\nbreak\",\"amount\":-5,\"currency\":\"US\\\"D\",\"order_id\":\"p\\\\1\"}"
    );
}
