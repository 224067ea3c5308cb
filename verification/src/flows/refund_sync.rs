//! Synchronising a refund: Axia's refund transaction.
use vstd::prelude::*;

use crate::connector::{error_body_code_text, is_headers_result, request_headers_of, Axia};
use crate::request::{Request, RequestBody, RequestContent};
use crate::transformers::{
    error_message_text, is_refund_outcome, ErrorResponse, RefundRequest, TransactionResponse,
};
use crate::types::{
    ConnectorError, Connectors, Header, Method, RefundsData, RefundsResponseData,
    ResponseRouterData, RouterData, RouterErrorResponse,
};

verus! {

/// The data of the refund flows.
pub type RefundsRouterData = RouterData<RefundsData, RefundsResponseData>;

/// The endpoint that refunds transaction `id`, under the API's address.
pub open spec fn url_of(base: Seq<char>, id: Seq<char>) -> Seq<char> {
    base + "api/v2/transaction/"@ + id + "/refund"@
}

/// `c` is the refund body for `req` with `amount`: the amount with the
/// refund's currency, and the refund's identifier as the external refund
/// identifier.
pub open spec fn is_refund_body(c: RequestContent, req: RefundsRouterData, amount: String) -> bool {
    c matches RequestContent::Json(RequestBody::Refund(b)) && b.profile_id is None
        && b.money.amount == amount && b.money.currency@ == req.request.currency@
        && b.additional_property@ == Map::<Seq<char>, Seq<char>>::empty().insert(
        "external_refund_id"@,
        req.request.refund_id@,
    )
}

/// The headers: the content type, then the credentials.
pub fn get_headers(connector: &Axia, req: &RefundsRouterData, connectors: &Connectors) -> (r:
    Result<Vec<Header>, ConnectorError>)
    ensures
        is_headers_result(r, request_headers_of(req.connector_auth_type)),
{
    connector.build_headers(req, connectors)
}

/// The content type of the flow's body.
pub fn get_content_type(connector: &Axia) -> (s: &'static str)
    ensures
        s@ == crate::consts::APPLICATION_JSON@,
{
    connector.common_get_content_type()
}

/// The endpoint, naming the transaction to refund.
pub fn get_url(connector: &Axia, req: &RefundsRouterData, connectors: &Connectors) -> (r: Result<
    String,
    ConnectorError,
>)
    ensures
        r matches Ok(u) && u@ == url_of(
            connectors.axia.base_url@,
            req.request.connector_transaction_id@,
        ),
{
    let ttid = req.request.connector_transaction_id.clone();
    Ok(
        connector.base_url(connectors).to_owned().concat("api/v2/transaction/").concat(
            ttid.as_str(),
        ).concat("/refund"),
    )
}

/// The body: the refund, with `refund_amount` the refund's amount already in
/// the currency's major unit.
pub fn get_request_body(
    _connector: &Axia,
    req: &RefundsRouterData,
    _connectors: &Connectors,
    refund_amount: String,
) -> (r: Result<RequestContent, ConnectorError>)
    ensures
        r matches Ok(c) && is_refund_body(c, *req, refund_amount),
{
    let connector_req = RefundRequest::try_from(req, refund_amount)?;
    Ok(RequestContent::Json(RequestBody::Refund(connector_req)))
}

/// The request: a POST of the refund body to the transaction's refund
/// endpoint, with the headers; it fails when the credentials are not of the
/// body-key kind.
pub fn build_request(
    connector: &Axia,
    req: &RefundsRouterData,
    connectors: &Connectors,
    refund_amount: String,
) -> (r: Result<Option<Request>, ConnectorError>)
    ensures
        match request_headers_of(req.connector_auth_type) {
            None => r == Err::<Option<Request>, ConnectorError>(
                ConnectorError::FailedToObtainAuthType,
            ),
            Some(h) => r matches Ok(Some(q)) && q.body matches Some(c) && is_refund_body(
                c,
                *req,
                refund_amount,
            ) && q.has_frame(
                Method::Post,
                url_of(connectors.axia.base_url@, req.request.connector_transaction_id@),
                h,
            ),
        },
{
    let url = get_url(connector, req, connectors)?;
    let headers = match get_headers(connector, req, connectors) {
        Ok(h) => h,
        Err(e) => {
            return Err(e);
        },
    };
    let body = get_request_body(connector, req, connectors, refund_amount)?;
    Ok(
        Some(
            Request {
                method: Method::Post,
                url,
                attach_default_headers: true,
                headers,
                body: Some(body),
            },
        ),
    )
}

/// Records the outcome of the refund, from the parsed response body (none
/// when it could not be parsed).
pub fn handle_response(
    _connector: &Axia,
    data: RefundsRouterData,
    body: Option<TransactionResponse>,
    status_code: u16,
) -> (r: Result<RefundsRouterData, ConnectorError>)
    ensures
        match body {
            None => r == Err::<RefundsRouterData, ConnectorError>(
                ConnectorError::ResponseDeserializationFailed,
            ),
            Some(b) => r matches Ok(d) && d.same_inputs(data) && d.status == data.status
                && is_refund_outcome(d.response, b, status_code),
        },
{
    let response = match body {
        Some(b) => b,
        None => {
            return Err(ConnectorError::ResponseDeserializationFailed);
        },
    };
    RouterData::try_from_refund_response(ResponseRouterData { response, data, http_code: status_code })
}

/// The router's error for an error body.
pub fn get_error_response(connector: &Axia, status_code: u16, body: Option<ErrorResponse>) -> (r:
    Result<RouterErrorResponse, ConnectorError>)
    ensures
        match body {
            None => r == Err::<RouterErrorResponse, ConnectorError>(
                ConnectorError::ResponseDeserializationFailed,
            ),
            Some(b) => r matches Ok(e) && e.status_code == status_code && e.code@
                == error_body_code_text(b) && e.message@ == error_message_text(b.verbiage)
                && e.reason is None && e.attempt_status is None && e.connector_transaction_id is None,
        },
{
    connector.build_error_response(status_code, body)
}

} // verus!
