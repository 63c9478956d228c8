use vstd::prelude::*;
use vstd::string::*;
use vstd::utf8::encode_utf8;

use crate::auth::DlocalAuthType;
use crate::date::{date_as_yyyymmddthhmmssmmmz, timestamp_text, DateTimeParts};
use crate::errors::ConnectorError;
use crate::redirect::pairs_view;
use crate::responses::DlocalErrorResponse;
use crate::signing::{sign_request, signature_text, signed_message, MAX_SIGNED_LEN};
use crate::text::{i64_text, int_text};
use crate::types::{
    CallConnectorAction, ConnectorAuthType, Connectors, ErrorResponse, IncomingWebhookEvent,
    Response,
};

verus! {

/// The connector. It holds no state: every operation is a function of its
/// arguments.
#[derive(Clone, Copy, Debug)]
pub struct Dlocal;

/// The request may be signed: its inputs fit the signer's length limit.
pub open spec fn signable(secret: Seq<char>, message: Seq<char>) -> bool {
    encode_utf8(secret).len() <= MAX_SIGNED_LEN && encode_utf8(message).len() <= MAX_SIGNED_LEN
}

/// The six headers of every call, in order.
pub open spec fn header_list(
    login: Seq<char>,
    trans_key: Seq<char>,
    date: Seq<char>,
    authorization: Seq<char>,
) -> Seq<(Seq<char>, Seq<char>)> {
    seq![
        ("Authorization"@, authorization),
        ("X-Login"@, login),
        ("X-Trans-Key"@, trans_key),
        ("X-Version"@, "2.1"@),
        ("X-Date"@, date),
        ("Content-Type"@, "application/json"@),
    ]
}

/// `r` is what building the headers for a call with `body` at `date` under
/// the credentials `auth` gives: an invalid date fails with
/// `RequestEncodingFailed`, credentials of another variant with
/// `FailedToObtainAuthType`, inputs too long to sign with
/// `RequestEncodingFailed`; otherwise the six headers, whose Authorization
/// signs login, timestamp and body.
pub open spec fn headers_result(
    auth: ConnectorAuthType,
    date: DateTimeParts,
    body: Seq<char>,
    r: Result<Vec<(String, String)>, ConnectorError>,
) -> bool {
    if !date.is_valid() {
        r == Err::<Vec<(String, String)>, ConnectorError>(ConnectorError::RequestEncodingFailed)
    } else {
        match auth {
            ConnectorAuthType::SignatureKey { api_key, key1, api_secret } => {
                let ts = timestamp_text(date);
                let message = signed_message(api_key@, ts, body);
                if signable(api_secret@, message) {
                    r matches Ok(h) && pairs_view(h@) == header_list(
                        api_key@,
                        key1@,
                        ts,
                        signature_text(api_secret@, message),
                    )
                } else {
                    r == Err::<Vec<(String, String)>, ConnectorError>(
                        ConnectorError::RequestEncodingFailed,
                    )
                }
            },
            _ => r == Err::<Vec<(String, String)>, ConnectorError>(
                ConnectorError::FailedToObtainAuthType,
            ),
        }
    }
}

/// `r` is the normalized error for the gateway's error answer `res`.
pub open spec fn error_response_result(
    res: Response<DlocalErrorResponse>,
    r: Result<ErrorResponse, ConnectorError>,
) -> bool {
    match res.response {
        None => r == Err::<ErrorResponse, ConnectorError>(
            ConnectorError::ResponseDeserializationFailed,
        ),
        Some(body) => r matches Ok(e) && e.status_code == res.status_code && e.code@ == int_text(
            body.code as int,
        ) && e.message == body.message && e.reason == body.param,
    }
}

fn header(name: &str, value: String) -> (r: (String, String))
    ensures
        r.0@ == name@,
        r.1 == value,
{
    (String::from_str(name), value)
}

impl Dlocal {
    /// The connector's name.
    pub fn id(&self) -> (r: &'static str)
        ensures
            r@ == "dlocal"@,
    {
        "dlocal"
    }

    /// Content type of every body sent.
    pub fn common_get_content_type(&self) -> (r: &'static str)
        ensures
            r@ == "application/json"@,
    {
        "application/json"
    }

    /// The configured base URL of the gateway.
    pub fn base_url<'a>(&self, connectors: &'a Connectors) -> (r: &'a str)
        ensures
            r@ == connectors.dlocal.base_url@,
    {
        connectors.dlocal.base_url.as_str()
    }

    /// The headers of a call whose serialized body is `body` (`None` for a
    /// call without body, signed as the empty string), sent at `date`.
    pub fn build_headers(
        &self,
        auth_type: &ConnectorAuthType,
        date: &DateTimeParts,
        body: Option<String>,
    ) -> (r: Result<Vec<(String, String)>, ConnectorError>)
        ensures
            headers_result(
                *auth_type,
                *date,
                match body {
                    Some(b) => b@,
                    None => Seq::empty(),
                },
                r,
            ),
    {
        let dlocal_req = match body {
            Some(val) => val,
            None => String::new(),
        };
        let date_text = match date_as_yyyymmddthhmmssmmmz(date) {
            Some(d) => d,
            None => {
                return Err(ConnectorError::RequestEncodingFailed);
            },
        };
        let auth = match DlocalAuthType::try_from(auth_type) {
            Ok(a) => a,
            Err(e) => {
                return Err(e);
            },
        };
        let authorization = match sign_request(
            auth.x_login.as_str(),
            auth.secret.as_str(),
            date_text.as_str(),
            dlocal_req.as_str(),
        ) {
            Some(a) => a,
            None => {
                return Err(ConnectorError::RequestEncodingFailed);
            },
        };
        let mut headers: Vec<(String, String)> = Vec::new();
        headers.push(header("Authorization", authorization));
        headers.push(header("X-Login", auth.x_login));
        headers.push(header("X-Trans-Key", auth.x_trans_key));
        headers.push(header("X-Version", String::from_str("2.1")));
        headers.push(header("X-Date", date_text));
        headers.push(header("Content-Type", String::from_str(self.common_get_content_type())));
        assert(pairs_view(headers@) =~= header_list(
            auth.x_login@,
            auth.x_trans_key@,
            timestamp_text(*date),
            signature_text(
                auth.secret@,
                signed_message(auth.x_login@, timestamp_text(*date), dlocal_req@),
            ),
        ));
        Ok(headers)
    }

    /// Normalizes the gateway's error answer: a body without the error
    /// shape fails with `ResponseDeserializationFailed`; otherwise the
    /// HTTP status, the code in decimal, the message, and `param` as the
    /// reason.
    pub fn build_error_response(&self, res: Response<DlocalErrorResponse>) -> (r: Result<
        ErrorResponse,
        ConnectorError,
    >)
        ensures
            error_response_result(res, r),
    {
        match res.response {
            None => Err(ConnectorError::ResponseDeserializationFailed),
            Some(body) => Ok(
                ErrorResponse {
                    status_code: res.status_code,
                    code: i64_text(body.code as i64),
                    message: body.message,
                    reason: body.param,
                },
            ),
        }
    }

    /// Webhooks are not supported.
    pub fn get_webhook_object_reference_id(&self, _body: &[u8]) -> (r: Result<
        String,
        ConnectorError,
    >)
        ensures
            r == Err::<String, ConnectorError>(ConnectorError::WebhooksNotImplemented),
    {
        Err(ConnectorError::WebhooksNotImplemented)
    }

    /// Webhooks are not supported.
    pub fn get_webhook_event_type(&self, _body: &[u8]) -> (r: Result<
        IncomingWebhookEvent,
        ConnectorError,
    >)
        ensures
            r == Err::<IncomingWebhookEvent, ConnectorError>(
                ConnectorError::WebhooksNotImplemented,
            ),
    {
        Err(ConnectorError::WebhooksNotImplemented)
    }

    /// Webhooks are not supported.
    pub fn get_webhook_resource_object(&self, _body: &[u8]) -> (r: Result<
        Vec<u8>,
        ConnectorError,
    >)
        ensures
            r == Err::<Vec<u8>, ConnectorError>(ConnectorError::WebhooksNotImplemented),
    {
        Err(ConnectorError::WebhooksNotImplemented)
    }

    /// After a completed redirect the orchestrator triggers the next
    /// connector call, whatever the query parameters.
    pub fn get_flow_type(&self, _query_params: &str) -> (r: Result<
        CallConnectorAction,
        ConnectorError,
    >)
        ensures
            r == Ok::<CallConnectorAction, ConnectorError>(CallConnectorAction::Trigger),
    {
        Ok(CallConnectorAction::Trigger)
    }
}

} // verus!
