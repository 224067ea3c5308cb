//! Creating a customer at the gateway.
use vstd::prelude::*;

use crate::connector::{error_body_code_text, is_headers_result, request_headers_of, Axia};
use crate::consts::CONTENT_TYPE;
use crate::request::{Request, RequestBody, RequestContent};
use crate::transformers::{error_message_text, AxiaCustomerResponse, CustomerRequest, ErrorResponse};
use crate::types::{
    headers_view, ConnectorCustomerData, ConnectorError, Connectors, Header, Maskable, Method,
    PaymentsResponseData, ResponseRouterData, RouterData, RouterErrorResponse,
};

verus! {

/// The data of the customer-creation flow.
pub type ConnectorCustomerRouterData = RouterData<ConnectorCustomerData, PaymentsResponseData>;

/// The endpoint of the flow, under the API's address.
pub open spec fn url_of(base: Seq<char>) -> Seq<char> {
    base + "api/v2/customer"@
}

/// The content type of the flow's body.
pub fn get_content_type(connector: &Axia) -> (s: &'static str)
    ensures
        s@ == crate::consts::APPLICATION_JSON@,
{
    connector.common_get_content_type()
}

/// The headers: the content type, then the credentials.
pub fn get_headers(connector: &Axia, req: &ConnectorCustomerRouterData, _connectors: &Connectors) -> (r:
    Result<Vec<Header>, ConnectorError>)
    ensures
        is_headers_result(r, request_headers_of(req.connector_auth_type)),
{
    let mut header: Vec<Header> = Vec::new();
    header.push((CONTENT_TYPE.to_owned(), Maskable::Normal(get_content_type(connector).to_owned())));
    let mut api_key = match connector.get_auth_header(&req.connector_auth_type) {
        Ok(h) => h,
        Err(e) => {
            return Err(e);
        },
    };
    let ghost first = headers_view(header@);
    let ghost rest = headers_view(api_key@);
    assert(first =~= seq![(CONTENT_TYPE@, false, crate::consts::APPLICATION_JSON@)]);
    header.append(&mut api_key);
    assert(headers_view(header@) =~= first + rest);
    Ok(header)
}

/// The endpoint.
pub fn get_url(connector: &Axia, _req: &ConnectorCustomerRouterData, connectors: &Connectors) -> (r:
    Result<String, ConnectorError>)
    ensures
        r matches Ok(u) && u@ == url_of(connectors.axia.base_url@),
{
    Ok(connector.base_url(connectors).to_owned().concat("api/v2/customer"))
}

/// The body: the customer data as Axia takes it.
pub fn get_request_body(
    _connector: &Axia,
    req: &ConnectorCustomerRouterData,
    _connectors: &Connectors,
) -> (r: Result<RequestContent, ConnectorError>)
    ensures
        r matches Ok(RequestContent::Json(RequestBody::Customer(c))) && c.is_built_from(req.request),
{
    let connector_req = CustomerRequest::try_from(req)?;
    Ok(RequestContent::Json(RequestBody::Customer(connector_req)))
}

/// The request: a POST of the customer body to the endpoint, with the
/// headers; it fails when the credentials are not of the body-key kind.
pub fn build_request(connector: &Axia, req: &ConnectorCustomerRouterData, connectors: &Connectors) -> (r:
    Result<Option<Request>, ConnectorError>)
    ensures
        match request_headers_of(req.connector_auth_type) {
            None => r == Err::<Option<Request>, ConnectorError>(
                ConnectorError::FailedToObtainAuthType,
            ),
            Some(h) => r matches Ok(Some(q)) && q.body matches Some(
                RequestContent::Json(RequestBody::Customer(c)),
            ) && c.is_built_from(req.request) && q.has_frame(
                Method::Post,
                url_of(connectors.axia.base_url@),
                h,
            ),
        },
{
    let url = get_url(connector, req, connectors)?;
    let headers = match get_headers(connector, req, connectors) {
        Ok(h) => h,
        Err(e) => {
            return Err(e);
        },
    };
    let body = get_request_body(connector, req, connectors)?;
    Ok(
        Some(
            Request {
                method: Method::Post,
                url,
                attach_default_headers: true,
                headers,
                body: Some(body),
            },
        ),
    )
}

/// Records the created customer, from the parsed response body (none when
/// it could not be parsed). A parsed body must name the customer.
pub fn handle_response(
    _connector: &Axia,
    data: ConnectorCustomerRouterData,
    body: Option<AxiaCustomerResponse>,
    status_code: u16,
) -> (r: Result<ConnectorCustomerRouterData, ConnectorError>)
    requires
        body matches Some(b) ==> b.id is Some,
    ensures
        match body {
            None => r == Err::<ConnectorCustomerRouterData, ConnectorError>(
                ConnectorError::ResponseDeserializationFailed,
            ),
            Some(b) => r matches Ok(d) && d.same_inputs(data) && d.status == data.status
                && d.response == Ok::<PaymentsResponseData, RouterErrorResponse>(
                PaymentsResponseData::ConnectorCustomerResponse { connector_customer_id: b.id->0 },
            ),
        },
{
    let response = match body {
        Some(b) => b,
        None => {
            return Err(ConnectorError::ResponseDeserializationFailed);
        },
    };
    match RouterData::try_from_customer_response(
        ResponseRouterData { response, data, http_code: status_code },
    ) {
        Ok(d) => Ok(d),
        Err(_) => Err(ConnectorError::ResponseHandlingFailed),
    }
}

/// The router's error for an error body.
pub fn get_error_response(connector: &Axia, status_code: u16, body: Option<ErrorResponse>) -> (r:
    Result<RouterErrorResponse, ConnectorError>)
    ensures
        match body {
            None => r == Err::<RouterErrorResponse, ConnectorError>(
                ConnectorError::ResponseDeserializationFailed,
            ),
            Some(b) => r matches Ok(e) && e.status_code == status_code && e.code@
                == error_body_code_text(b) && e.message@ == error_message_text(b.verbiage)
                && e.reason is None && e.attempt_status is None && e.connector_transaction_id is None,
        },
{
    connector.build_error_response(status_code, body)
}

} // verus!
