//! Voiding a payment.
use vstd::prelude::*;

use crate::connector::{error_body_code_text, is_headers_result, request_headers_of, Axia};
use crate::request::{Request, RequestBody, RequestContent};
use crate::transformers::{
    error_message_text, is_payments_outcome, payment_status_of, ErrorResponse, TransactionResponse,
};
use crate::types::{
    ConnectorError, Connectors, Header, Method, PaymentsCancelData, PaymentsResponseData,
    ResponseRouterData, RouterData, RouterErrorResponse,
};

verus! {

/// The data of the void flow.
pub type PaymentsCancelRouterData = RouterData<PaymentsCancelData, PaymentsResponseData>;

/// The endpoint that voids transaction `id`, under the API's address.
pub open spec fn url_of(base: Seq<char>, id: Seq<char>) -> Seq<char> {
    base + "api/v2/transaction/"@ + id + "/void"@
}

/// The headers: the content type, then the credentials.
pub fn get_headers(connector: &Axia, req: &PaymentsCancelRouterData, connectors: &Connectors) -> (r:
    Result<Vec<Header>, ConnectorError>)
    ensures
        is_headers_result(r, request_headers_of(req.connector_auth_type)),
{
    connector.build_headers(req, connectors)
}

/// The content type of the flow's body.
pub fn get_content_type(connector: &Axia) -> (s: &'static str)
    ensures
        s@ == crate::consts::APPLICATION_JSON@,
{
    connector.common_get_content_type()
}

/// The endpoint, naming the transaction to void.
pub fn get_url(connector: &Axia, req: &PaymentsCancelRouterData, connectors: &Connectors) -> (r:
    Result<String, ConnectorError>)
    ensures
        r matches Ok(u) && u@ == url_of(
            connectors.axia.base_url@,
            req.request.connector_transaction_id@,
        ),
{
    Ok(
        connector.base_url(connectors).to_owned().concat("api/v2/transaction/").concat(
            req.request.connector_transaction_id.as_str(),
        ).concat("/void"),
    )
}

/// The flow defines no body of its own: the empty body is sent.
pub fn get_request_body(
    _connector: &Axia,
    _req: &PaymentsCancelRouterData,
    _connectors: &Connectors,
) -> (r: Result<RequestContent, ConnectorError>)
    ensures
        r matches Ok(RequestContent::Json(RequestBody::EmptyJsonText)),
{
    Ok(RequestContent::Json(RequestBody::EmptyJsonText))
}

/// The request: a DELETE of the transaction's void endpoint, with the
/// headers; it fails when the credentials are not of the body-key kind.
pub fn build_request(connector: &Axia, req: &PaymentsCancelRouterData, connectors: &Connectors) -> (r:
    Result<Option<Request>, ConnectorError>)
    ensures
        match request_headers_of(req.connector_auth_type) {
            None => r == Err::<Option<Request>, ConnectorError>(
                ConnectorError::FailedToObtainAuthType,
            ),
            Some(h) => r matches Ok(Some(q)) && q.body matches Some(
                RequestContent::Json(RequestBody::EmptyJsonText),
            ) && q.has_frame(
                Method::Delete,
                url_of(connectors.axia.base_url@, req.request.connector_transaction_id@),
                h,
            ),
        },
{
    let url = get_url(connector, req, connectors)?;
    let headers = match get_headers(connector, req, connectors) {
        Ok(h) => h,
        Err(e) => {
            return Err(e);
        },
    };
    let body = get_request_body(connector, req, connectors)?;
    Ok(
        Some(
            Request {
                method: Method::Delete,
                url,
                attach_default_headers: true,
                headers,
                body: Some(body),
            },
        ),
    )
}

/// Records the outcome of the void, from the parsed response body (none when
/// it could not be parsed).
pub fn handle_response(
    _connector: &Axia,
    data: PaymentsCancelRouterData,
    body: Option<TransactionResponse>,
    status_code: u16,
) -> (r: Result<PaymentsCancelRouterData, ConnectorError>)
    ensures
        match body {
            None => r == Err::<PaymentsCancelRouterData, ConnectorError>(
                ConnectorError::ResponseDeserializationFailed,
            ),
            Some(b) => r matches Ok(d) && d.same_inputs(data) && d.status == payment_status_of(
                b.code,
                b.phard_code,
            ) && is_payments_outcome(d.response, b, status_code),
        },
{
    let response = match body {
        Some(b) => b,
        None => {
            return Err(ConnectorError::ResponseDeserializationFailed);
        },
    };
    RouterData::try_from_transaction_response(
        ResponseRouterData { response, data, http_code: status_code },
    )
}

/// The router's error for an error body.
pub fn get_error_response(connector: &Axia, status_code: u16, body: Option<ErrorResponse>) -> (r:
    Result<RouterErrorResponse, ConnectorError>)
    ensures
        match body {
            None => r == Err::<RouterErrorResponse, ConnectorError>(
                ConnectorError::ResponseDeserializationFailed,
            ),
            Some(b) => r matches Ok(e) && e.status_code == status_code && e.code@
                == error_body_code_text(b) && e.message@ == error_message_text(b.verbiage)
                && e.reason is None && e.attempt_status is None && e.connector_transaction_id is None,
        },
{
    connector.build_error_response(status_code, body)
}

} // verus!
