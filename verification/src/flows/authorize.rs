//! Authorizing a payment: Axia's purchase transaction.
use vstd::prelude::*;

use crate::connector::{error_body_code_text, is_headers_result, request_headers_of, Axia};
use crate::request::{Request, RequestBody, RequestContent};
use crate::transformers::{
    error_message_text, is_payments_outcome, is_purchase_result, payment_status_of, ErrorResponse,
    TransactionPurchaseRequest, TransactionResponse,
};
use crate::types::{
    ConnectorError, Connectors, Header, Method, PaymentsAuthorizeData, PaymentsResponseData,
    ResponseRouterData, RouterData, RouterErrorResponse,
};

verus! {

/// The data of the authorization flow.
pub type PaymentsAuthorizeRouterData = RouterData<PaymentsAuthorizeData, PaymentsResponseData>;

/// The endpoint of the flow, under the API's address.
pub open spec fn url_of(base: Seq<char>) -> Seq<char> {
    base + "api/v2/transaction/purchase"@
}

/// `r` is the body built for `req` with `amount`, or the error met in
/// building it.
pub open spec fn is_body_result(
    r: Result<RequestContent, ConnectorError>,
    req: PaymentsAuthorizeRouterData,
    amount: String,
) -> bool {
    match r {
        Ok(RequestContent::Json(RequestBody::Purchase(b))) => is_purchase_result(Ok(b), req, amount),
        Ok(_) => false,
        Err(e) => is_purchase_result(Err(e), req, amount),
    }
}

/// The content type of the flow's body.
pub fn get_content_type(connector: &Axia) -> (s: &'static str)
    ensures
        s@ == crate::consts::APPLICATION_JSON@,
{
    connector.common_get_content_type()
}

/// The headers: the content type, then the credentials.
pub fn get_headers(connector: &Axia, req: &PaymentsAuthorizeRouterData, connectors: &Connectors) -> (r:
    Result<Vec<Header>, ConnectorError>)
    ensures
        is_headers_result(r, request_headers_of(req.connector_auth_type)),
{
    connector.build_headers(req, connectors)
}

/// The endpoint.
pub fn get_url(connector: &Axia, _req: &PaymentsAuthorizeRouterData, connectors: &Connectors) -> (r:
    Result<String, ConnectorError>)
    ensures
        r matches Ok(u) && u@ == url_of(connectors.axia.base_url@),
{
    Ok(connector.base_url(connectors).to_owned().concat("api/v2/transaction/purchase"))
}

/// The body: the purchase for the authorization, with `amount` the
/// authorization's amount already in the currency's major unit.
pub fn get_request_body(
    _connector: &Axia,
    req: &PaymentsAuthorizeRouterData,
    _connectors: &Connectors,
    amount: String,
) -> (r: Result<RequestContent, ConnectorError>)
    ensures
        is_body_result(r, *req, amount),
{
    let connector_req = TransactionPurchaseRequest::try_from(req, amount)?;
    Ok(RequestContent::Json(RequestBody::Purchase(connector_req)))
}

/// The request: a POST of the purchase body to the endpoint, with the
/// headers. Credentials are checked before the body is built.
pub fn build_request(
    connector: &Axia,
    req: &PaymentsAuthorizeRouterData,
    connectors: &Connectors,
    amount: String,
) -> (r: Result<Option<Request>, ConnectorError>)
    ensures
        match request_headers_of(req.connector_auth_type) {
            None => r == Err::<Option<Request>, ConnectorError>(
                ConnectorError::FailedToObtainAuthType,
            ),
            Some(h) => match r {
                Ok(Some(q)) => q.body matches Some(b) && is_body_result(Ok(b), *req, amount)
                    && q.has_frame(Method::Post, url_of(connectors.axia.base_url@), h),
                Ok(None) => false,
                Err(e) => is_body_result(Err(e), *req, amount),
            },
        },
{
    let url = get_url(connector, req, connectors)?;
    let headers = match get_headers(connector, req, connectors) {
        Ok(h) => h,
        Err(e) => {
            return Err(e);
        },
    };
    let body = match get_request_body(connector, req, connectors, amount) {
        Ok(b) => b,
        Err(e) => {
            return Err(e);
        },
    };
    Ok(
        Some(
            Request {
                method: Method::Post,
                url,
                attach_default_headers: true,
                headers,
                body: Some(body),
            },
        ),
    )
}

/// Records the outcome of the purchase, from the parsed response body (none
/// when it could not be parsed).
pub fn handle_response(
    _connector: &Axia,
    data: PaymentsAuthorizeRouterData,
    body: Option<TransactionResponse>,
    status_code: u16,
) -> (r: Result<PaymentsAuthorizeRouterData, ConnectorError>)
    ensures
        match body {
            None => r == Err::<PaymentsAuthorizeRouterData, ConnectorError>(
                ConnectorError::ResponseDeserializationFailed,
            ),
            Some(b) => r matches Ok(d) && d.same_inputs(data) && d.status == payment_status_of(
                b.code,
                b.phard_code,
            ) && is_payments_outcome(d.response, b, status_code),
        },
{
    let response = match body {
        Some(b) => b,
        None => {
            return Err(ConnectorError::ResponseDeserializationFailed);
        },
    };
    RouterData::try_from_transaction_response(
        ResponseRouterData { response, data, http_code: status_code },
    )
}

/// The router's error for an error body.
pub fn get_error_response(connector: &Axia, status_code: u16, body: Option<ErrorResponse>) -> (r:
    Result<RouterErrorResponse, ConnectorError>)
    ensures
        match body {
            None => r == Err::<RouterErrorResponse, ConnectorError>(
                ConnectorError::ResponseDeserializationFailed,
            ),
            Some(b) => r matches Ok(e) && e.status_code == status_code && e.code@
                == error_body_code_text(b) && e.message@ == error_message_text(b.verbiage)
                && e.reason is None && e.attempt_status is None && e.connector_transaction_id is None,
        },
{
    connector.build_error_response(status_code, body)
}

} // verus!
