//! Fixed texts that the connector sends or reports.
use vstd::prelude::*;

verus! {

/// Error code reported when the gateway gave none.
pub const NO_ERROR_CODE: &'static str = "No error code";

/// Error message reported when the gateway gave none.
pub const NO_ERROR_MESSAGE: &'static str = "No error message";

/// Name of the content-type header.
pub const CONTENT_TYPE: &'static str = "Content-Type";

/// Name of the header that carries the API key identifier.
pub const X_API_KEY_ID: &'static str = "X-Api-Key-Id";

/// Name of the header that carries the API key.
pub const X_API_KEY: &'static str = "X-Api-Key";

/// Content type of every request body the connector sends.
pub const APPLICATION_JSON: &'static str = "application/json";

/// The connector's identifier.
pub const CONNECTOR_ID: &'static str = "axia";

} // verus!
