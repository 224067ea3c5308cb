//! Setting up a mandate: storing the card in Axia's vault.
//!
//! Only the endpoint, headers, content type and error handling of this flow
//! stand here. Its body, request and response reading would be built on an
//! `AxiaZeroMandateRequest` and an `AxiaSetupMandateResponse`, which Axia's
//! request and response types never define, so the flow has none of them.
use vstd::prelude::*;

use crate::connector::{error_body_code_text, is_headers_result, request_headers_of, Axia};
use crate::transformers::{error_message_text, ErrorResponse};
use crate::types::{
    ConnectorError, Connectors, Header, PaymentsResponseData, RouterData, RouterErrorResponse,
};

verus! {

/// The endpoint of the flow, under the API's address.
pub open spec fn url_of(base: Seq<char>) -> Seq<char> {
    base + "api/v2/vault/account"@
}

/// The headers: the content type, then the credentials.
pub fn get_headers<Req>(connector: &Axia, req: &RouterData<Req, PaymentsResponseData>, connectors: &Connectors) -> (r:
    Result<Vec<Header>, ConnectorError>)
    ensures
        is_headers_result(r, request_headers_of(req.connector_auth_type)),
{
    connector.build_headers(req, connectors)
}

/// The content type of the flow's body.
pub fn get_content_type(connector: &Axia) -> (s: &'static str)
    ensures
        s@ == crate::consts::APPLICATION_JSON@,
{
    connector.common_get_content_type()
}

/// The endpoint.
pub fn get_url<Req>(
    connector: &Axia,
    _req: &RouterData<Req, PaymentsResponseData>,
    connectors: &Connectors,
) -> (r: Result<String, ConnectorError>)
    ensures
        r matches Ok(u) && u@ == url_of(connectors.axia.base_url@),
{
    Ok(connector.base_url(connectors).to_owned().concat("api/v2/vault/account"))
}

/// The router's error for an error body.
pub fn get_error_response(connector: &Axia, status_code: u16, body: Option<ErrorResponse>) -> (r:
    Result<RouterErrorResponse, ConnectorError>)
    ensures
        match body {
            None => r == Err::<RouterErrorResponse, ConnectorError>(
                ConnectorError::ResponseDeserializationFailed,
            ),
            Some(b) => r matches Ok(e) && e.status_code == status_code && e.code@
                == error_body_code_text(b) && e.message@ == error_message_text(b.verbiage)
                && e.reason is None && e.attempt_status is None && e.connector_transaction_id is None,
        },
{
    connector.build_error_response(status_code, body)
}

} // verus!
