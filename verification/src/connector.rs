//! The Axia connector: what it tells the router about itself, its
//! credentials and headers, and its reading of error bodies.
use vstd::prelude::*;

use crate::consts::{
    APPLICATION_JSON, CONNECTOR_ID, CONTENT_TYPE, NO_ERROR_CODE, NO_ERROR_MESSAGE, X_API_KEY,
    X_API_KEY_ID,
};
use crate::transformers::{error_message_text, AxiaAuthType, ErrorResponse};
use crate::types::{
    headers_view, AttemptStatus, ConnectorAuthType, ConnectorError, Connectors, CurrencyUnit,
    Header, Maskable, PaymentMethodData, PaymentMethodType, RouterData, RouterErrorResponse,
};
use crate::utils::{data_type_of, is_mandate_supported, mandate_not_supported_message, PaymentMethodDataType};

verus! {

/// The Axia connector.
#[derive(Clone, Copy, Debug, PartialEq, Eq, Structural)]
pub struct Axia;

/// The headers that carry Axia's credentials, masked: the key identifier
/// then the key.
pub open spec fn auth_headers_view(api_key: Seq<char>, key1: Seq<char>) -> Seq<(Seq<char>, bool, Seq<char>)> {
    seq![(X_API_KEY_ID@, true, api_key), (X_API_KEY@, true, key1)]
}

/// The headers of a request for credentials `auth`: none when they are not
/// of the body-key kind.
pub open spec fn auth_headers_of(auth: ConnectorAuthType) -> Option<Seq<(Seq<char>, bool, Seq<char>)>> {
    match auth {
        ConnectorAuthType::BodyKey { api_key, key1 } => Some(auth_headers_view(api_key@, key1@)),
        _ => None,
    }
}

/// The headers of every request: the content type, then the credentials.
pub open spec fn request_headers_of(auth: ConnectorAuthType) -> Option<Seq<(Seq<char>, bool, Seq<char>)>> {
    match auth_headers_of(auth) {
        Some(h) => Some(seq![(CONTENT_TYPE@, false, APPLICATION_JSON@)] + h),
        None => None,
    }
}

/// `r` is the header list `expected` describes, or the credentials error
/// when it describes none.
pub open spec fn is_headers_result(
    r: Result<Vec<Header>, ConnectorError>,
    expected: Option<Seq<(Seq<char>, bool, Seq<char>)>>,
) -> bool {
    match expected {
        Some(h) => r matches Ok(v) && headers_view(v@) == h,
        None => r == Err::<Vec<Header>, ConnectorError>(ConnectorError::FailedToObtainAuthType),
    }
}

/// The error code reported for an error body.
pub open spec fn error_body_code_text(body: ErrorResponse) -> Seq<char> {
    match body.code {
        Some(c) => c.display_text(),
        None => NO_ERROR_CODE@,
    }
}

impl Axia {
    /// The connector.
    pub fn new() -> (a: Axia)
        ensures
            a == Axia,
    {
        Axia
    }

    /// The connector's identifier.
    pub fn id(&self) -> (s: &'static str)
        ensures
            s@ == CONNECTOR_ID@,
    {
        CONNECTOR_ID
    }

    /// Axia takes amounts in the currency's base unit.
    pub fn get_currency_unit(&self) -> (u: CurrencyUnit)
        ensures
            u == CurrencyUnit::Base,
    {
        CurrencyUnit::Base
    }

    /// Every body is JSON.
    pub fn common_get_content_type(&self) -> (s: &'static str)
        ensures
            s@ == APPLICATION_JSON@,
    {
        APPLICATION_JSON
    }

    /// The configured address of the Axia API.
    pub fn base_url<'a>(&self, connectors: &'a Connectors) -> (s: &'a str)
        ensures
            s@ == connectors.axia.base_url@,
    {
        connectors.axia.base_url.as_str()
    }

    /// The credential headers: the API key identifier and the API key, both
    /// masked. Only body-key credentials are accepted.
    pub fn get_auth_header(&self, auth_type: &ConnectorAuthType) -> (r: Result<
        Vec<Header>,
        ConnectorError,
    >)
        ensures
            is_headers_result(r, auth_headers_of(*auth_type)),
    {
        let auth = match AxiaAuthType::try_from(auth_type) {
            Ok(a) => a,
            Err(_) => {
                return Err(ConnectorError::FailedToObtainAuthType);
            },
        };
        let mut headers: Vec<Header> = Vec::new();
        headers.push((X_API_KEY_ID.to_owned(), Maskable::Masked(auth.api_key)));
        headers.push((X_API_KEY.to_owned(), Maskable::Masked(auth.key1)));
        assert(headers_view(headers@) =~= auth_headers_of(*auth_type)->0);
        Ok(headers)
    }

    /// The headers of a request: the content type, then the credentials.
    pub fn build_headers<Req, Resp>(
        &self,
        req: &RouterData<Req, Resp>,
        _connectors: &Connectors,
    ) -> (r: Result<Vec<Header>, ConnectorError>)
        ensures
            is_headers_result(r, request_headers_of(req.connector_auth_type)),
    {
        let mut header: Vec<Header> = Vec::new();
        header.push(
            (CONTENT_TYPE.to_owned(), Maskable::Normal(self.common_get_content_type().to_owned())),
        );
        let mut api_key = match self.get_auth_header(&req.connector_auth_type) {
            Ok(h) => h,
            Err(e) => {
                return Err(e);
            },
        };
        let ghost first = headers_view(header@);
        assert(first =~= seq![(CONTENT_TYPE@, false, APPLICATION_JSON@)]);
        let ghost rest = headers_view(api_key@);
        header.append(&mut api_key);
        assert(headers_view(header@) =~= first + rest);
        Ok(header)
    }

    /// The router's error for an error body received with HTTP status
    /// `status_code`; `body` is the parsed body, none when it could not be
    /// parsed.
    pub fn build_error_response(&self, status_code: u16, body: Option<ErrorResponse>) -> (r: Result<
        RouterErrorResponse,
        ConnectorError,
    >)
        ensures
            match body {
                None => r == Err::<RouterErrorResponse, ConnectorError>(
                    ConnectorError::ResponseDeserializationFailed,
                ),
                Some(b) => r matches Ok(e) && e.status_code == status_code && e.code@
                    == error_body_code_text(b) && e.message@ == error_message_text(b.verbiage)
                    && e.reason is None && e.attempt_status is None
                    && e.connector_transaction_id is None,
            },
    {
        let response = match body {
            Some(b) => b,
            None => {
                return Err(ConnectorError::ResponseDeserializationFailed);
            },
        };
        let code = match response.code {
            Some(c) => c.to_string(),
            None => NO_ERROR_CODE.to_owned(),
        };
        let message = match response.verbiage {
            Some(v) => v,
            None => NO_ERROR_MESSAGE.to_owned(),
        };
        Ok(
            RouterErrorResponse {
                status_code,
                code,
                message,
                reason: None,
                attempt_status: None,
                connector_transaction_id: None,
            },
        )
    }

    /// Mandates are supported for card payments only.
    pub fn validate_mandate_payment(
        &self,
        pm_type: Option<PaymentMethodType>,
        pm_data: &PaymentMethodData,
    ) -> (r: Result<(), ConnectorError>)
        ensures
            pm_data is Card ==> r is Ok,
            !(pm_data is Card) ==> (r matches Err(
                ConnectorError::NotSupported { message, connector },
            ) && message@ == mandate_not_supported_message(pm_type) && connector@ == CONNECTOR_ID@),
    {
        let mut mandate_supported_pmd: Vec<PaymentMethodDataType> = Vec::new();
        mandate_supported_pmd.push(PaymentMethodDataType::Card);
        proof {
            if !(pm_data is Card) {
                assert(!mandate_supported_pmd@.contains(data_type_of(*pm_data))) by {
                    assert(mandate_supported_pmd@ =~= seq![PaymentMethodDataType::Card]);
                }
            } else {
                assert(mandate_supported_pmd@[0] == data_type_of(*pm_data));
            }
        }
        is_mandate_supported(pm_data, pm_type, &mandate_supported_pmd, self.id())
    }

    /// Any payment's reference is accepted for synchronisation.
    pub fn validate_psync_reference_id(&self, _is_three_ds: bool, _status: AttemptStatus) -> (r:
        Result<(), ConnectorError>)
        ensures
            r is Ok,
    {
        Ok(())
    }

    /// The connector never asks the router to create a customer first.
    pub fn should_call_connector_customer(&self) -> (b: bool)
        ensures
            !b,
    {
        false
    }
}

} // verus!
