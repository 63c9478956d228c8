use vstd::prelude::*;
use vstd::string::*;

use crate::connector::{headers_result, Dlocal};
use crate::date::DateTimeParts;
use crate::duplicate::Duplicate;
use crate::errors::ConnectorError;
use crate::json::opt_view;
use crate::redirect::url_fails;
use crate::json::object_text;
use crate::requests::{
    authorize_body_text, authorize_input_error, authorize_ready, capture_members,
    refund_members, DlocalPaymentsCancelRequest, DlocalPaymentsCaptureRequest,
    DlocalPaymentsRequest, DlocalPaymentsSyncRequest, DlocalRefundsSyncRequest,
    PaymentsAuthorizeRouterData, PaymentsCancelRouterData, PaymentsCaptureRouterData,
    PaymentsSyncRouterData, RefundRequest, RefundSyncRouterData, RefundsRouterData,
};
use crate::responses::{refund_status_of, DlocalPaymentsResponse, RefundResponse};
use crate::types::{
    Authorize, Capture, Connectors, Execute, Method, PSync, RSync, Void, PaymentsAuthorizeData, PaymentsCancelData,
    PaymentsCaptureData, PaymentsResponseData, PaymentsSyncData, RefundsData,
    RefundsResponseData, Request, Response, ResponseId, RouterData,
};

verus! {

/// The uniform contract of a flow `F` on canonical request `T` and outcome
/// `R`: headers, url and body of the call, the whole request, and the
/// mapping of the gateway's answer. Error answers of every flow go through
/// `Dlocal::build_error_response`, and every body is sent as
/// `Dlocal::common_get_content_type`.
pub trait ConnectorIntegration<F, T, R> {
    /// The shape of the gateway's answer in this flow.
    type GatewayResponse;

    fn get_headers(
        &self,
        req: &RouterData<F, T, R>,
        connectors: &Connectors,
        date: &DateTimeParts,
    ) -> Result<Vec<(String, String)>, ConnectorError>;

    fn get_url(&self, req: &RouterData<F, T, R>, connectors: &Connectors) -> Result<
        String,
        ConnectorError,
    >;

    fn get_request_body(&self, req: &RouterData<F, T, R>) -> Result<Option<String>, ConnectorError>;

    fn build_request(
        &self,
        req: &RouterData<F, T, R>,
        connectors: &Connectors,
        date: &DateTimeParts,
    ) -> Result<Option<Request>, ConnectorError>;

    fn handle_response(
        &self,
        data: &RouterData<F, T, R>,
        res: Response<Self::GatewayResponse>,
    ) -> Result<RouterData<F, T, R>, ConnectorError>;
}

/// `r` is the snapshot `data` updated by the payment answer `res`: a body
/// of another shape gives `ResponseDeserializationFailed`, a redirect url
/// that does not parse `ResponseHandlingFailed`; otherwise every field of
/// `data` but status and outcome is carried, and those are the answer's.
pub open spec fn payments_handled<F, T, R>(
    data: RouterData<F, T, R>,
    res: Response<DlocalPaymentsResponse>,
    r: Result<RouterData<F, T, PaymentsResponseData>, ConnectorError>,
) -> bool {
    match res.response {
        None => r == Err::<RouterData<F, T, PaymentsResponseData>, ConnectorError>(
            ConnectorError::ResponseDeserializationFailed,
        ),
        Some(body) => if url_fails(body.redirect_url()) {
            r == Err::<RouterData<F, T, PaymentsResponseData>, ConnectorError>(
                ConnectorError::ResponseHandlingFailed,
            )
        } else {
            r matches Ok(after) && data.carried_into(after) && (after.response matches Ok(o)
                && body.outcome_is(after.status, o))
        },
    }
}

/// Round trip: once the Authorize body was built from a snapshot, mapping a
/// gateway answer back over that snapshot keeps every field of the
/// snapshot but status and outcome, among them the canonical request the
/// body was built from.
pub proof fn lemma_authorize_round_trip(
    item: PaymentsAuthorizeRouterData,
    body: DlocalPaymentsRequest,
    res: Response<DlocalPaymentsResponse>,
    r: Result<PaymentsAuthorizeRouterData, ConnectorError>,
)
    requires
        body.built_from(item),
        payments_handled(item, res, r),
        r is Ok,
    ensures
        item.carried_into(r->Ok_0),
        r->Ok_0.request == item.request,
        r->Ok_0.payment_id == body.order_id,
        r->Ok_0.request.amount == body.amount,
        r->Ok_0.return_url == body.callback_url,
{
}

fn handle_payments_response<F, T: Duplicate, R>(
    data: &RouterData<F, T, R>,
    res: Response<DlocalPaymentsResponse>,
) -> (r: Result<RouterData<F, T, PaymentsResponseData>, ConnectorError>)
    ensures
        payments_handled(*data, res, r),
{
    let response = match res.response {
        Some(body) => body,
        None => {
            return Err(ConnectorError::ResponseDeserializationFailed);
        },
    };
    match response.outcome() {
        Ok((status, outcome)) => Ok(data.copy_with_outcome(status, Ok(outcome))),
        Err(_) => Err(ConnectorError::ResponseHandlingFailed),
    }
}

/// `r` is the Authorize body for `item`: its input error when `item` is not
/// ready, the JSON text of the body, or `RequestEncodingFailed` when that
/// text cannot be produced.
pub open spec fn authorize_body_result(
    item: PaymentsAuthorizeRouterData,
    r: Result<Option<String>, ConnectorError>,
) -> bool {
    if !authorize_ready(item) {
        authorize_input_error(item, r)
    } else {
        match authorize_body_text(item) {
            Some(t) => r matches Ok(Some(b)) && b@ == t,
            None => r == Err::<Option<String>, ConnectorError>(
                ConnectorError::RequestEncodingFailed,
            ),
        }
    }
}

/// `r` is what needs the Authorize body first and then something else
/// from it: the body's error, or `rest(text)`.
pub open spec fn after_authorize_body<X>(
    item: PaymentsAuthorizeRouterData,
    r: Result<X, ConnectorError>,
    rest: spec_fn(Seq<char>) -> bool,
) -> bool {
    if !authorize_ready(item) {
        authorize_input_error(item, r)
    } else {
        match authorize_body_text(item) {
            Some(t) => rest(t),
            None => r == Err::<X, ConnectorError>(ConnectorError::RequestEncodingFailed),
        }
    }
}

impl ConnectorIntegration<Authorize, PaymentsAuthorizeData, PaymentsResponseData> for Dlocal {
    type GatewayResponse = DlocalPaymentsResponse;

    fn get_headers(
        &self,
        req: &PaymentsAuthorizeRouterData,
        connectors: &Connectors,
        date: &DateTimeParts,
    ) -> (r: Result<Vec<(String, String)>, ConnectorError>)
        ensures
            after_authorize_body(
                *req,
                r,
                |t: Seq<char>| headers_result(req.connector_auth_type, *date, t, r),
            ),
    {
        let body = match ConnectorIntegration::<
            Authorize,
            PaymentsAuthorizeData,
            PaymentsResponseData,
        >::get_request_body(self, req) {
            Ok(b) => b,
            Err(e) => {
                return Err(e);
            },
        };
        self.build_headers(&req.connector_auth_type, date, body)
    }

    fn get_url(&self, _req: &PaymentsAuthorizeRouterData, connectors: &Connectors) -> (r: Result<
        String,
        ConnectorError,
    >)
        ensures
            r matches Ok(u) && u@ == connectors.dlocal.base_url@ + "secure_payments"@,
    {
        Ok(String::from_str(self.base_url(connectors)).concat("secure_payments"))
    }

    fn get_request_body(&self, req: &PaymentsAuthorizeRouterData) -> (r: Result<
        Option<String>,
        ConnectorError,
    >)
        ensures
            authorize_body_result(*req, r),
    {
        let body = match DlocalPaymentsRequest::try_from(req) {
            Ok(b) => b,
            Err(e) => {
                return Err(e);
            },
        };
        match body.encode() {
            Some(t) => Ok(Some(t)),
            None => Err(ConnectorError::RequestEncodingFailed),
        }
    }

    fn build_request(
        &self,
        req: &PaymentsAuthorizeRouterData,
        connectors: &Connectors,
        date: &DateTimeParts,
    ) -> (r: Result<Option<Request>, ConnectorError>)
        ensures
            after_authorize_body(
                *req,
                r,
                |t: Seq<char>|
                    match r {
                        Ok(Some(request)) => request.method == Method::Post && request.url@
                            == connectors.dlocal.base_url@ + "secure_payments"@ && headers_result(
                            req.connector_auth_type,
                            *date,
                            t,
                            Ok(request.headers),
                        ) && opt_view(request.body) == Some(t),
                        Ok(None) => false,
                        Err(e) => headers_result(req.connector_auth_type, *date, t, Err(e)),
                    },
            ),
    {
        let url = match ConnectorIntegration::<
            Authorize,
            PaymentsAuthorizeData,
            PaymentsResponseData,
        >::get_url(self, req, connectors) {
            Ok(u) => u,
            Err(e) => {
                return Err(e);
            },
        };
        let headers = match ConnectorIntegration::<
            Authorize,
            PaymentsAuthorizeData,
            PaymentsResponseData,
        >::get_headers(self, req, connectors, date) {
            Ok(h) => h,
            Err(e) => {
                return Err(e);
            },
        };
        let body = match ConnectorIntegration::<
            Authorize,
            PaymentsAuthorizeData,
            PaymentsResponseData,
        >::get_request_body(self, req) {
            Ok(b) => b,
            Err(e) => {
                return Err(e);
            },
        };
        Ok(Some(Request { method: Method::Post, url, headers, body }))
    }

    fn handle_response(
        &self,
        data: &PaymentsAuthorizeRouterData,
        res: Response<DlocalPaymentsResponse>,
    ) -> (r: Result<PaymentsAuthorizeRouterData, ConnectorError>)
        ensures
            payments_handled(*data, res, r),
    {
        handle_payments_response(data, res)
    }
}

/// `r` is what needs a body whose JSON text is `text` first and then
/// something else from it: `RequestEncodingFailed` when the text cannot be
/// produced, else `rest(text)`.
pub open spec fn after_body<X>(
    text: Option<Seq<char>>,
    r: Result<X, ConnectorError>,
    rest: spec_fn(Seq<char>) -> bool,
) -> bool {
    match text {
        Some(t) => rest(t),
        None => r == Err::<X, ConnectorError>(ConnectorError::RequestEncodingFailed),
    }
}

/// `r` is a complete request with `method`, `url`, the headers for a body
/// `signed` under `auth` at `date`, and `body`; or the headers' error.
pub open spec fn request_result(
    r: Result<Option<Request>, ConnectorError>,
    method: Method,
    url: Seq<char>,
    auth: crate::types::ConnectorAuthType,
    date: DateTimeParts,
    signed: Seq<char>,
    body: Option<Seq<char>>,
) -> bool {
    match r {
        Ok(Some(request)) => request.method == method && request.url@ == url && headers_result(
            auth,
            date,
            signed,
            Ok(request.headers),
        ) && opt_view(request.body) == body,
        Ok(None) => false,
        Err(e) => headers_result(auth, date, signed, Err(e)),
    }
}

/// The url of a payment's status: `payments/{id}/status`.
pub open spec fn sync_url(base: Seq<char>, id: Seq<char>) -> Seq<char> {
    base + "payments/"@ + id + "/status"@
}

/// The url of a payment's cancellation: `payments/{id}/cancel`.
pub open spec fn cancel_url(base: Seq<char>, id: Seq<char>) -> Seq<char> {
    base + "payments/"@ + id + "/cancel"@
}

/// The url of a refund's status: `refunds/{id}/status`.
pub open spec fn refund_sync_url(base: Seq<char>, id: Seq<char>) -> Seq<char> {
    base + "refunds/"@ + id + "/status"@
}

fn path_url(base: &str, head: &str, id: &str, tail: &str) -> (r: String)
    ensures
        r@ == base@ + head@ + id@ + tail@,
{
    let mut u = String::from_str(base);
    u.append(head);
    u.append(id);
    u.append(tail);
    u
}

impl ConnectorIntegration<PSync, PaymentsSyncData, PaymentsResponseData> for Dlocal {
    type GatewayResponse = DlocalPaymentsResponse;

    fn get_headers(
        &self,
        req: &PaymentsSyncRouterData,
        connectors: &Connectors,
        date: &DateTimeParts,
    ) -> (r: Result<Vec<(String, String)>, ConnectorError>)
        ensures
            headers_result(req.connector_auth_type, *date, Seq::empty(), r),
    {
        self.build_headers(&req.connector_auth_type, date, None)
    }

    fn get_url(&self, req: &PaymentsSyncRouterData, connectors: &Connectors) -> (r: Result<
        String,
        ConnectorError,
    >)
        ensures
            match req.request.connector_transaction_id {
                ResponseId::ConnectorTransactionId(id) => r matches Ok(u) && u@ == sync_url(
                    connectors.dlocal.base_url@,
                    id@,
                ),
                _ => r == Err::<String, ConnectorError>(
                    ConnectorError::MissingConnectorTransactionID,
                ),
            },
    {
        let sync_data = match DlocalPaymentsSyncRequest::try_from(req) {
            Ok(d) => d,
            Err(e) => {
                return Err(e);
            },
        };
        Ok(path_url(self.base_url(connectors), "payments/", sync_data.authz_id.as_str(), "/status"))
    }

    fn get_request_body(&self, _req: &PaymentsSyncRouterData) -> (r: Result<
        Option<String>,
        ConnectorError,
    >)
        ensures
            r == Ok::<Option<String>, ConnectorError>(None),
    {
        Ok(None)
    }

    fn build_request(
        &self,
        req: &PaymentsSyncRouterData,
        connectors: &Connectors,
        date: &DateTimeParts,
    ) -> (r: Result<Option<Request>, ConnectorError>)
        ensures
            match req.request.connector_transaction_id {
                ResponseId::ConnectorTransactionId(id) => request_result(
                    r,
                    Method::Get,
                    sync_url(connectors.dlocal.base_url@, id@),
                    req.connector_auth_type,
                    *date,
                    Seq::empty(),
                    None,
                ),
                _ => r == Err::<Option<Request>, ConnectorError>(
                    ConnectorError::MissingConnectorTransactionID,
                ),
            },
    {
        let url = match ConnectorIntegration::<PSync, PaymentsSyncData, PaymentsResponseData>::get_url(
            self,
            req,
            connectors,
        ) {
            Ok(u) => u,
            Err(e) => {
                return Err(e);
            },
        };
        let headers = match ConnectorIntegration::<
            PSync,
            PaymentsSyncData,
            PaymentsResponseData,
        >::get_headers(self, req, connectors, date) {
            Ok(h) => h,
            Err(e) => {
                return Err(e);
            },
        };
        Ok(Some(Request { method: Method::Get, url, headers, body: None }))
    }

    fn handle_response(
        &self,
        data: &PaymentsSyncRouterData,
        res: Response<DlocalPaymentsResponse>,
    ) -> (r: Result<PaymentsSyncRouterData, ConnectorError>)
        ensures
            payments_handled(*data, res, r),
    {
        handle_payments_response(data, res)
    }
}

impl ConnectorIntegration<Capture, PaymentsCaptureData, PaymentsResponseData> for Dlocal {
    type GatewayResponse = DlocalPaymentsResponse;

    fn get_headers(
        &self,
        req: &PaymentsCaptureRouterData,
        connectors: &Connectors,
        date: &DateTimeParts,
    ) -> (r: Result<Vec<(String, String)>, ConnectorError>)
        ensures
            after_body(
                object_text(capture_members(*req)),
                r,
                |t: Seq<char>| headers_result(req.connector_auth_type, *date, t, r),
            ),
    {
        let body = match ConnectorIntegration::<
            Capture,
            PaymentsCaptureData,
            PaymentsResponseData,
        >::get_request_body(self, req) {
            Ok(b) => b,
            Err(e) => {
                return Err(e);
            },
        };
        self.build_headers(&req.connector_auth_type, date, body)
    }

    fn get_url(&self, _req: &PaymentsCaptureRouterData, connectors: &Connectors) -> (r: Result<
        String,
        ConnectorError,
    >)
        ensures
            r matches Ok(u) && u@ == connectors.dlocal.base_url@ + "payments"@,
    {
        Ok(String::from_str(self.base_url(connectors)).concat("payments"))
    }

    fn get_request_body(&self, req: &PaymentsCaptureRouterData) -> (r: Result<
        Option<String>,
        ConnectorError,
    >)
        ensures
            after_body(
                object_text(capture_members(*req)),
                r,
                |t: Seq<char>| r matches Ok(Some(b)) && b@ == t,
            ),
    {
        let body = match DlocalPaymentsCaptureRequest::try_from(req) {
            Ok(b) => b,
            Err(e) => {
                return Err(e);
            },
        };
        assert(body.json_members() =~= capture_members(*req));
        match body.encode() {
            Some(t) => Ok(Some(t)),
            None => Err(ConnectorError::RequestEncodingFailed),
        }
    }

    fn build_request(
        &self,
        req: &PaymentsCaptureRouterData,
        connectors: &Connectors,
        date: &DateTimeParts,
    ) -> (r: Result<Option<Request>, ConnectorError>)
        ensures
            after_body(
                object_text(capture_members(*req)),
                r,
                |t: Seq<char>|
                    request_result(
                        r,
                        Method::Post,
                        connectors.dlocal.base_url@ + "payments"@,
                        req.connector_auth_type,
                        *date,
                        t,
                        Some(t),
                    ),
            ),
    {
        let url = match ConnectorIntegration::<
            Capture,
            PaymentsCaptureData,
            PaymentsResponseData,
        >::get_url(self, req, connectors) {
            Ok(u) => u,
            Err(e) => {
                return Err(e);
            },
        };
        let headers = match ConnectorIntegration::<
            Capture,
            PaymentsCaptureData,
            PaymentsResponseData,
        >::get_headers(self, req, connectors, date) {
            Ok(h) => h,
            Err(e) => {
                return Err(e);
            },
        };
        let body = match ConnectorIntegration::<
            Capture,
            PaymentsCaptureData,
            PaymentsResponseData,
        >::get_request_body(self, req) {
            Ok(b) => b,
            Err(e) => {
                return Err(e);
            },
        };
        Ok(Some(Request { method: Method::Post, url, headers, body }))
    }

    fn handle_response(
        &self,
        data: &PaymentsCaptureRouterData,
        res: Response<DlocalPaymentsResponse>,
    ) -> (r: Result<PaymentsCaptureRouterData, ConnectorError>)
        ensures
            payments_handled(*data, res, r),
    {
        handle_payments_response(data, res)
    }
}

impl ConnectorIntegration<Void, PaymentsCancelData, PaymentsResponseData> for Dlocal {
    type GatewayResponse = DlocalPaymentsResponse;

    fn get_headers(
        &self,
        req: &PaymentsCancelRouterData,
        connectors: &Connectors,
        date: &DateTimeParts,
    ) -> (r: Result<Vec<(String, String)>, ConnectorError>)
        ensures
            headers_result(req.connector_auth_type, *date, Seq::empty(), r),
    {
        self.build_headers(&req.connector_auth_type, date, None)
    }

    fn get_url(&self, req: &PaymentsCancelRouterData, connectors: &Connectors) -> (r: Result<
        String,
        ConnectorError,
    >)
        ensures
            r matches Ok(u) && u@ == cancel_url(
                connectors.dlocal.base_url@,
                req.request.connector_transaction_id@,
            ),
    {
        let cancel_data = match DlocalPaymentsCancelRequest::try_from(req) {
            Ok(d) => d,
            Err(e) => {
                return Err(e);
            },
        };
        Ok(
            path_url(
                self.base_url(connectors),
                "payments/",
                cancel_data.cancel_id.as_str(),
                "/cancel",
            ),
        )
    }

    fn get_request_body(&self, _req: &PaymentsCancelRouterData) -> (r: Result<
        Option<String>,
        ConnectorError,
    >)
        ensures
            r == Ok::<Option<String>, ConnectorError>(None),
    {
        Ok(None)
    }

    fn build_request(
        &self,
        req: &PaymentsCancelRouterData,
        connectors: &Connectors,
        date: &DateTimeParts,
    ) -> (r: Result<Option<Request>, ConnectorError>)
        ensures
            request_result(
                r,
                Method::Post,
                cancel_url(connectors.dlocal.base_url@, req.request.connector_transaction_id@),
                req.connector_auth_type,
                *date,
                Seq::empty(),
                None,
            ),
    {
        let url = match ConnectorIntegration::<
            Void,
            PaymentsCancelData,
            PaymentsResponseData,
        >::get_url(self, req, connectors) {
            Ok(u) => u,
            Err(e) => {
                return Err(e);
            },
        };
        let headers = match ConnectorIntegration::<
            Void,
            PaymentsCancelData,
            PaymentsResponseData,
        >::get_headers(self, req, connectors, date) {
            Ok(h) => h,
            Err(e) => {
                return Err(e);
            },
        };
        Ok(Some(Request { method: Method::Post, url, headers, body: None }))
    }

    fn handle_response(
        &self,
        data: &PaymentsCancelRouterData,
        res: Response<DlocalPaymentsResponse>,
    ) -> (r: Result<PaymentsCancelRouterData, ConnectorError>)
        ensures
            payments_handled(*data, res, r),
    {
        handle_payments_response(data, res)
    }
}

/// `r` is the refund snapshot `data` updated by the refund answer `res`: a
/// body of another shape gives `ResponseDeserializationFailed`; otherwise
/// every field of `data` but the outcome is carried, the payment status
/// too, and the outcome is the answer's refund id and canonical status.
pub open spec fn refund_handled<F>(
    data: RefundsRouterData<F>,
    res: Response<RefundResponse>,
    r: Result<RefundsRouterData<F>, ConnectorError>,
) -> bool {
    match res.response {
        None => r == Err::<RefundsRouterData<F>, ConnectorError>(
            ConnectorError::ResponseDeserializationFailed,
        ),
        Some(body) => r matches Ok(after) && data.carried_into(after) && after.status
            == data.status && (after.response matches Ok(o) && o.connector_refund_id == body.id
            && o.refund_status == refund_status_of(body.status)),
    }
}

fn handle_refund_response<F>(data: &RefundsRouterData<F>, res: Response<RefundResponse>) -> (r: Result<
    RefundsRouterData<F>,
    ConnectorError,
>)
    ensures
        refund_handled(*data, res, r),
{
    let response = match res.response {
        Some(body) => body,
        None => {
            return Err(ConnectorError::ResponseDeserializationFailed);
        },
    };
    Ok(data.copy_with_outcome(data.status, Ok(response.outcome())))
}

impl ConnectorIntegration<Execute, RefundsData, RefundsResponseData> for Dlocal {
    type GatewayResponse = RefundResponse;

    fn get_headers(&self, req: &RefundsRouterData<Execute>, connectors: &Connectors, date: &DateTimeParts) -> (r:
        Result<Vec<(String, String)>, ConnectorError>)
        ensures
            after_body(
                object_text(refund_members(*req)),
                r,
                |t: Seq<char>| headers_result(req.connector_auth_type, *date, t, r),
            ),
    {
        let body = match ConnectorIntegration::<
            Execute,
            RefundsData,
            RefundsResponseData,
        >::get_request_body(self, req) {
            Ok(b) => b,
            Err(e) => {
                return Err(e);
            },
        };
        self.build_headers(&req.connector_auth_type, date, body)
    }

    fn get_url(&self, _req: &RefundsRouterData<Execute>, connectors: &Connectors) -> (r: Result<
        String,
        ConnectorError,
    >)
        ensures
            r matches Ok(u) && u@ == connectors.dlocal.base_url@ + "refunds"@,
    {
        Ok(String::from_str(self.base_url(connectors)).concat("refunds"))
    }

    fn get_request_body(&self, req: &RefundsRouterData<Execute>) -> (r: Result<
        Option<String>,
        ConnectorError,
    >)
        ensures
            after_body(
                object_text(refund_members(*req)),
                r,
                |t: Seq<char>| r matches Ok(Some(b)) && b@ == t,
            ),
    {
        let body = match RefundRequest::try_from(req) {
            Ok(b) => b,
            Err(e) => {
                return Err(e);
            },
        };
        assert(body.json_members() =~= refund_members(*req));
        match body.encode() {
            Some(t) => Ok(Some(t)),
            None => Err(ConnectorError::RequestEncodingFailed),
        }
    }

    fn build_request(
        &self,
        req: &RefundsRouterData<Execute>,
        connectors: &Connectors,
        date: &DateTimeParts,
    ) -> (r: Result<Option<Request>, ConnectorError>)
        ensures
            after_body(
                object_text(refund_members(*req)),
                r,
                |t: Seq<char>|
                    request_result(
                        r,
                        Method::Post,
                        connectors.dlocal.base_url@ + "refunds"@,
                        req.connector_auth_type,
                        *date,
                        t,
                        Some(t),
                    ),
            ),
    {
        let url = match ConnectorIntegration::<Execute, RefundsData, RefundsResponseData>::get_url(
            self,
            req,
            connectors,
        ) {
            Ok(u) => u,
            Err(e) => {
                return Err(e);
            },
        };
        let headers = match ConnectorIntegration::<
            Execute,
            RefundsData,
            RefundsResponseData,
        >::get_headers(self, req, connectors, date) {
            Ok(h) => h,
            Err(e) => {
                return Err(e);
            },
        };
        let body = match ConnectorIntegration::<
            Execute,
            RefundsData,
            RefundsResponseData,
        >::get_request_body(self, req) {
            Ok(b) => b,
            Err(e) => {
                return Err(e);
            },
        };
        Ok(Some(Request { method: Method::Post, url, headers, body }))
    }

    fn handle_response(&self, data: &RefundsRouterData<Execute>, res: Response<RefundResponse>) -> (r:
        Result<RefundsRouterData<Execute>, ConnectorError>)
        ensures
            refund_handled(*data, res, r),
    {
        handle_refund_response(data, res)
    }
}

/// The refund id a refund sync asks about: the gateway's when known, else
/// the platform's.
pub open spec fn refund_sync_id(item: RefundSyncRouterData) -> Seq<char> {
    match item.request.connector_refund_id {
        Some(id) => id@,
        None => item.request.refund_id@,
    }
}

impl ConnectorIntegration<RSync, RefundsData, RefundsResponseData> for Dlocal {
    type GatewayResponse = RefundResponse;

    fn get_headers(&self, req: &RefundSyncRouterData, connectors: &Connectors, date: &DateTimeParts) -> (r:
        Result<Vec<(String, String)>, ConnectorError>)
        ensures
            headers_result(req.connector_auth_type, *date, Seq::empty(), r),
    {
        self.build_headers(&req.connector_auth_type, date, None)
    }

    fn get_url(&self, req: &RefundSyncRouterData, connectors: &Connectors) -> (r: Result<
        String,
        ConnectorError,
    >)
        ensures
            r matches Ok(u) && u@ == refund_sync_url(connectors.dlocal.base_url@, refund_sync_id(*req)),
    {
        let sync_data = match DlocalRefundsSyncRequest::try_from(req) {
            Ok(d) => d,
            Err(e) => {
                return Err(e);
            },
        };
        Ok(path_url(self.base_url(connectors), "refunds/", sync_data.refund_id.as_str(), "/status"))
    }

    fn get_request_body(&self, _req: &RefundSyncRouterData) -> (r: Result<
        Option<String>,
        ConnectorError,
    >)
        ensures
            r == Ok::<Option<String>, ConnectorError>(None),
    {
        Ok(None)
    }

    fn build_request(
        &self,
        req: &RefundSyncRouterData,
        connectors: &Connectors,
        date: &DateTimeParts,
    ) -> (r: Result<Option<Request>, ConnectorError>)
        ensures
            request_result(
                r,
                Method::Get,
                refund_sync_url(connectors.dlocal.base_url@, refund_sync_id(*req)),
                req.connector_auth_type,
                *date,
                Seq::empty(),
                None,
            ),
    {
        let url = match ConnectorIntegration::<RSync, RefundsData, RefundsResponseData>::get_url(
            self,
            req,
            connectors,
        ) {
            Ok(u) => u,
            Err(e) => {
                return Err(e);
            },
        };
        let headers = match ConnectorIntegration::<
            RSync,
            RefundsData,
            RefundsResponseData,
        >::get_headers(self, req, connectors, date) {
            Ok(h) => h,
            Err(e) => {
                return Err(e);
            },
        };
        Ok(Some(Request { method: Method::Get, url, headers, body: None }))
    }

    fn handle_response(&self, data: &RefundSyncRouterData, res: Response<RefundResponse>) -> (r:
        Result<RefundSyncRouterData, ConnectorError>)
        ensures
            refund_handled(*data, res, r),
    {
        handle_refund_response(data, res)
    }
}

} // verus!
