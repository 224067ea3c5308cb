//! Outgoing requests to the Axia API.
use vstd::prelude::*;

use crate::transformers::{CustomerRequest, RefundRequest, TransactionPurchaseRequest};
use crate::types::{headers_view, Header, Method};

verus! {

/// A request body; the service layer encodes it as JSON.
#[derive(Debug)]
pub enum RequestBody {
    Customer(CustomerRequest),
    Purchase(TransactionPurchaseRequest),
    Refund(RefundRequest),
    /// The body of a flow that defines none: the JSON string `"{}"`.
    EmptyJsonText,
}

/// The content of a request.
#[derive(Debug)]
pub enum RequestContent {
    Json(RequestBody),
}

/// A request ready to be sent.
#[derive(Debug)]
pub struct Request {
    pub method: Method,
    pub url: String,
    /// Whether the service layer adds its default headers.
    pub attach_default_headers: bool,
    pub headers: Vec<Header>,
    pub body: Option<RequestContent>,
}

impl Request {
    /// The request has this method, URL and header list, and asks for the
    /// default headers.
    pub open spec fn has_frame(
        self,
        method: Method,
        url: Seq<char>,
        headers: Seq<(Seq<char>, bool, Seq<char>)>,
    ) -> bool {
        &&& self.method == method
        &&& self.url@ == url
        &&& self.attach_default_headers
        &&& headers_view(self.headers@) == headers
    }
}

} // verus!
