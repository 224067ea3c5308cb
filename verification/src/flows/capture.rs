//! Capturing an authorized payment; the connector does not implement it.
use vstd::prelude::*;

use crate::connector::{error_body_code_text, is_headers_result, request_headers_of, Axia};
use crate::flows::psync::is_not_implemented;
use crate::request::{Request, RequestContent};
use crate::transformers::{error_message_text, ErrorResponse};
use crate::types::{
    ConnectorError, Connectors, Header, Method, PaymentsResponseData, RouterData,
    RouterErrorResponse,
};

verus! {

/// The headers: the content type, then the credentials.
pub fn get_headers<Req>(connector: &Axia, req: &RouterData<Req, PaymentsResponseData>, connectors: &Connectors) -> (r:
    Result<Vec<Header>, ConnectorError>)
    ensures
        is_headers_result(r, request_headers_of(req.connector_auth_type)),
{
    connector.build_headers(req, connectors)
}

/// The content type of the flow's body.
pub fn get_content_type(connector: &Axia) -> (s: &'static str)
    ensures
        s@ == crate::consts::APPLICATION_JSON@,
{
    connector.common_get_content_type()
}

/// The endpoint is not implemented.
pub fn get_url<Req>(
    _connector: &Axia,
    _req: &RouterData<Req, PaymentsResponseData>,
    _connectors: &Connectors,
) -> (r: Result<String, ConnectorError>)
    ensures
        is_not_implemented(r, "get_url method"@),
{
    Err(ConnectorError::NotImplemented("get_url method".to_owned()))
}

/// The body is not implemented.
pub fn get_request_body<Req>(
    _connector: &Axia,
    _req: &RouterData<Req, PaymentsResponseData>,
    _connectors: &Connectors,
) -> (r: Result<RequestContent, ConnectorError>)
    ensures
        is_not_implemented(r, "get_request_body method"@),
{
    Err(ConnectorError::NotImplemented("get_request_body method".to_owned()))
}

/// The request cannot be built, since the endpoint is not implemented.
pub fn build_request<Req>(
    connector: &Axia,
    req: &RouterData<Req, PaymentsResponseData>,
    connectors: &Connectors,
) -> (r: Result<Option<Request>, ConnectorError>)
    ensures
        is_not_implemented(r, "get_url method"@),
{
    let url = match get_url(connector, req, connectors) {
        Ok(u) => u,
        Err(e) => {
            return Err(e);
        },
    };
    let headers = get_headers(connector, req, connectors)?;
    let body = get_request_body(connector, req, connectors)?;
    Ok(
        Some(
            Request {
                method: Method::Post,
                url,
                attach_default_headers: true,
                headers,
                body: Some(body),
            },
        ),
    )
}

/// The router's error for an error body.
pub fn get_error_response(connector: &Axia, status_code: u16, body: Option<ErrorResponse>) -> (r:
    Result<RouterErrorResponse, ConnectorError>)
    ensures
        match body {
            None => r == Err::<RouterErrorResponse, ConnectorError>(
                ConnectorError::ResponseDeserializationFailed,
            ),
            Some(b) => r matches Ok(e) && e.status_code == status_code && e.code@
                == error_body_code_text(b) && e.message@ == error_message_text(b.verbiage)
                && e.reason is None && e.attempt_status is None && e.connector_transaction_id is None,
        },
{
    connector.build_error_response(status_code, body)
}

} // verus!
