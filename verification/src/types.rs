//! The router-side payment model that the connector reads and fills in.
//!
//! These types hold, as plain values, what the connector's logic reads of the
//! router's data: credentials, the request of each flow, the shipping address,
//! and the status and response that a flow writes back.
use vstd::prelude::*;

verus! {

/// The view of an optional string.
pub open spec fn opt_view(o: Option<String>) -> Option<Seq<char>> {
    match o {
        Some(s) => Some(s@),
        None => None,
    }
}

/// Copies an optional string.
pub fn clone_opt(o: &Option<String>) -> (r: Option<String>)
    ensures
        opt_view(r) == opt_view(*o),
{
    match o {
        Some(s) => Some(s.clone()),
        None => None,
    }
}

/// Credentials configured for a merchant's connector account.
#[derive(Debug, PartialEq, Eq)]
pub enum ConnectorAuthType {
    TemporaryAuth,
    HeaderKey { api_key: String },
    BodyKey { api_key: String, key1: String },
    SignatureKey { api_key: String, key1: String, api_secret: String },
    MultiAuthKey { api_key: String, key1: String, api_secret: String, key2: String },
    CertificateAuth { certificate: String, private_key: String },
    NoKey,
}

/// A header value, either shown in logs as it is or masked.
#[derive(Debug, PartialEq, Eq)]
pub enum Maskable {
    Masked(String),
    Normal(String),
}

impl Maskable {
    /// True when the value is masked.
    pub open spec fn is_masked(self) -> bool {
        self is Masked
    }

    /// The text of the value, masked or not.
    pub open spec fn text(self) -> Seq<char> {
        match self {
            Maskable::Masked(s) => s@,
            Maskable::Normal(s) => s@,
        }
    }
}

/// A header: its name and its value.
pub type Header = (String, Maskable);

/// The name and value of each header, in order.
pub open spec fn headers_view(h: Seq<Header>) -> Seq<(Seq<char>, bool, Seq<char>)> {
    h.map_values(|e: Header| (e.0@, e.1.is_masked(), e.1.text()))
}

/// HTTP method of an outgoing request.
#[derive(Clone, Copy, Debug, PartialEq, Eq, Structural)]
pub enum Method {
    Get,
    Post,
    Put,
    Delete,
    Patch,
}

/// Unit in which the router hands amounts to the connector.
#[derive(Clone, Copy, Debug, PartialEq, Eq, Structural)]
pub enum CurrencyUnit {
    Base,
    Minor,
}

/// Errors a connector reports to the router.
#[derive(Debug, PartialEq, Eq)]
pub enum ConnectorError {
    NotImplemented(String),
    NotSupported { message: String, connector: &'static str },
    FailedToObtainAuthType,
    MissingRequiredField { field_name: &'static str },
    InvalidDataFormat { field_name: &'static str },
    RequestEncodingFailed,
    ResponseDeserializationFailed,
    ResponseHandlingFailed,
    WebhooksNotImplemented,
    /// An amount could not be turned into the unit the gateway takes.
    AmountConversionFailed,
}

/// Status of a payment attempt.
#[derive(Clone, Copy, Debug, PartialEq, Eq, Structural)]
pub enum AttemptStatus {
    Started,
    AuthenticationFailed,
    RouterDeclined,
    AuthenticationPending,
    AuthenticationSuccessful,
    Authorized,
    AuthorizationFailed,
    Charged,
    Authorizing,
    CodInitiated,
    Voided,
    VoidInitiated,
    CaptureInitiated,
    CaptureFailed,
    VoidFailed,
    AutoRefunded,
    PartialCharged,
    PartialChargedAndChargeable,
    Unresolved,
    Pending,
    Failure,
    PaymentMethodAwaited,
    ConfirmationAwaited,
    DeviceDataCollectionPending,
    IntegrityFailure,
    Expired,
}

impl AttemptStatus {
    /// The statuses in which an attempt has failed.
    pub open spec fn is_failure(self) -> bool {
        ||| self is AuthenticationFailed
        ||| self is AuthorizationFailed
        ||| self is CaptureFailed
        ||| self is VoidFailed
        ||| self is Failure
        ||| self is Expired
    }
}

/// Status of a refund.
#[derive(Clone, Copy, Debug, PartialEq, Eq, Structural)]
pub enum RefundStatus {
    Failure,
    ManualReview,
    Pending,
    Success,
    TransactionFailure,
}

impl RefundStatus {
    /// The statuses in which a refund has failed.
    pub open spec fn is_failure(self) -> bool {
        self is Failure || self is TransactionFailure
    }
}

/// Whether a payment attempt in this status has failed.
pub fn is_payment_failure(status: AttemptStatus) -> (r: bool)
    ensures
        r == status.is_failure(),
{
    match status {
        AttemptStatus::AuthenticationFailed
        | AttemptStatus::AuthorizationFailed
        | AttemptStatus::CaptureFailed
        | AttemptStatus::VoidFailed
        | AttemptStatus::Failure
        | AttemptStatus::Expired => true,
        _ => false,
    }
}

/// Whether a refund in this status has failed.
pub fn is_refund_failure(status: RefundStatus) -> (r: bool)
    ensures
        r == status.is_failure(),
{
    match status {
        RefundStatus::Failure | RefundStatus::TransactionFailure => true,
        RefundStatus::ManualReview | RefundStatus::Pending | RefundStatus::Success => false,
    }
}

/// Kind of payment method, as the router names it.
#[derive(Clone, Copy, Debug, PartialEq, Eq, Structural)]
pub enum PaymentMethodType {
    Credit,
    Debit,
    ApplePay,
    GooglePay,
    SamsungPay,
    Paypal,
    Klarna,
    Affirm,
    Ach,
    Sepa,
    Bacs,
}

impl PaymentMethodType {
    /// The display form of the type.
    pub open spec fn display_text(self) -> Seq<char> {
        match self {
            PaymentMethodType::Credit => "credit"@,
            PaymentMethodType::Debit => "debit"@,
            PaymentMethodType::ApplePay => "apple_pay"@,
            PaymentMethodType::GooglePay => "google_pay"@,
            PaymentMethodType::SamsungPay => "samsung_pay"@,
            PaymentMethodType::Paypal => "paypal"@,
            PaymentMethodType::Klarna => "klarna"@,
            PaymentMethodType::Affirm => "affirm"@,
            PaymentMethodType::Ach => "ach"@,
            PaymentMethodType::Sepa => "sepa"@,
            PaymentMethodType::Bacs => "bacs"@,
        }
    }

    /// Renders the display form of the type.
    pub fn to_string(&self) -> (s: String)
        ensures
            s@ == self.display_text(),
    {
        let text: &str = match self {
            PaymentMethodType::Credit => "credit",
            PaymentMethodType::Debit => "debit",
            PaymentMethodType::ApplePay => "apple_pay",
            PaymentMethodType::GooglePay => "google_pay",
            PaymentMethodType::SamsungPay => "samsung_pay",
            PaymentMethodType::Paypal => "paypal",
            PaymentMethodType::Klarna => "klarna",
            PaymentMethodType::Affirm => "affirm",
            PaymentMethodType::Ach => "ach",
            PaymentMethodType::Sepa => "sepa",
            PaymentMethodType::Bacs => "bacs",
        };
        text.to_owned()
    }
}

/// A card entered by the customer.
#[derive(Debug, PartialEq, Eq)]
pub struct Card {
    pub card_number: String,
    pub card_exp_month: String,
    pub card_exp_year: String,
    pub card_cvc: String,
}

/// A card held in an external vault.
#[derive(Debug, PartialEq, Eq)]
pub struct ExternalVaultCard {
    pub card_number: String,
    pub card_exp_month: String,
    pub card_exp_year: String,
    pub card_cvc: String,
}

/// Payment method data of an authorization; the connector reads the two card
/// kinds and turns every other kind down.
#[derive(Debug, PartialEq, Eq)]
pub enum PaymentMethodData {
    Card(Card),
    VaultDataCard(ExternalVaultCard),
    CardRedirect,
    Wallet,
    PayLater,
    BankRedirect,
    BankDebit,
    BankTransfer,
    Crypto,
    MandatePayment,
    Upi,
    Voucher,
    GiftCard,
    CardToken,
    NetworkToken,
}

/// The parts of an address that the connector reads.
#[derive(Debug, PartialEq, Eq)]
pub struct AddressDetails {
    /// Two-letter country code.
    pub country: Option<String>,
    pub zip: Option<String>,
}

/// An address as the router stores it.
#[derive(Debug, PartialEq, Eq)]
pub struct Address {
    pub address: Option<AddressDetails>,
}

/// The addresses attached to a payment.
#[derive(Debug, PartialEq, Eq)]
pub struct PaymentAddress {
    pub shipping: Option<Address>,
}

/// Shipping country of the payment, if any.
pub open spec fn shipping_country(a: PaymentAddress) -> Option<Seq<char>> {
    match a.shipping {
        Some(s) => match s.address {
            Some(d) => opt_view(d.country),
            None => None,
        },
        None => None,
    }
}

/// Shipping zip code of the payment, if any.
pub open spec fn shipping_zip(a: PaymentAddress) -> Option<Seq<char>> {
    match a.shipping {
        Some(s) => match s.address {
            Some(d) => opt_view(d.zip),
            None => None,
        },
        None => None,
    }
}

impl PaymentAddress {
    /// Whether the payment has a shipping address.
    pub fn get_optional_shipping(&self) -> (r: bool)
        ensures
            r == self.shipping.is_some(),
    {
        self.shipping.is_some()
    }

    /// Shipping country of the payment, if any.
    pub fn get_optional_shipping_country(&self) -> (r: Option<String>)
        ensures
            opt_view(r) == shipping_country(*self),
    {
        match &self.shipping {
            Some(s) => match &s.address {
                Some(d) => clone_opt(&d.country),
                None => None,
            },
            None => None,
        }
    }

    /// Shipping zip code of the payment, if any.
    pub fn get_optional_shipping_zip(&self) -> (r: Option<String>)
        ensures
            opt_view(r) == shipping_zip(*self),
    {
        match &self.shipping {
            Some(s) => match &s.address {
                Some(d) => clone_opt(&d.zip),
                None => None,
            },
            None => None,
        }
    }
}

/// Request of the customer-creation flow.
#[derive(Debug, PartialEq, Eq)]
pub struct ConnectorCustomerData {
    pub description: Option<String>,
    pub email: Option<String>,
    pub phone: Option<String>,
    pub name: Option<String>,
}

/// Request of the authorization flow.
#[derive(Debug, PartialEq, Eq)]
pub struct PaymentsAuthorizeData {
    pub payment_method_data: PaymentMethodData,
    /// Amount in the currency's minor unit.
    pub minor_amount: i64,
    /// Three-letter currency code.
    pub currency: String,
    /// Merchant metadata as JSON text.
    pub metadata: Option<String>,
}

/// Request of the void flow.
#[derive(Debug, PartialEq, Eq)]
pub struct PaymentsCancelData {
    pub connector_transaction_id: String,
}

/// Request of the refund flows.
#[derive(Debug, PartialEq, Eq)]
pub struct RefundsData {
    pub refund_id: String,
    pub connector_transaction_id: String,
    /// Refund amount in the currency's minor unit.
    pub minor_refund_amount: i64,
    /// Three-letter currency code.
    pub currency: String,
}

/// Identifier by which the connector knows a payment.
#[derive(Debug, PartialEq, Eq)]
pub enum ResponseId {
    ConnectorTransactionId(String),
    EncodedData(String),
    NoResponseId,
}

/// What a payment flow reports back on success.
#[derive(Debug, PartialEq, Eq)]
pub enum PaymentsResponseData {
    TransactionResponse {
        resource_id: ResponseId,
        connector_response_reference_id: Option<String>,
    },
    ConnectorCustomerResponse { connector_customer_id: String },
}

/// What a refund flow reports back on success.
#[derive(Debug, PartialEq, Eq)]
pub struct RefundsResponseData {
    pub connector_refund_id: String,
    pub refund_status: RefundStatus,
}

/// An error reported by the connector to the router.
#[derive(Debug, PartialEq, Eq)]
pub struct RouterErrorResponse {
    pub code: String,
    pub message: String,
    pub reason: Option<String>,
    pub status_code: u16,
    pub attempt_status: Option<AttemptStatus>,
    pub connector_transaction_id: Option<String>,
}

/// The data of one flow: what the router hands in and what the connector
/// writes back (`status` and `response`).
#[derive(Debug, PartialEq, Eq)]
pub struct RouterData<Req, Resp> {
    pub status: AttemptStatus,
    pub connector_auth_type: ConnectorAuthType,
    pub connector_request_reference_id: String,
    pub address: PaymentAddress,
    pub request: Req,
    pub response: Result<Resp, RouterErrorResponse>,
}

impl<Req, Resp> RouterData<Req, Resp> {
    /// Everything but `status` and `response` is the same in both.
    pub open spec fn same_inputs(self, other: Self) -> bool {
        &&& self.connector_auth_type == other.connector_auth_type
        &&& self.connector_request_reference_id == other.connector_request_reference_id
        &&& self.address == other.address
        &&& self.request == other.request
    }
}

/// A connector's parsed response, with the flow data it answers and the HTTP
/// status it came with.
pub struct ResponseRouterData<Resp, Req, PResp> {
    pub response: Resp,
    pub data: RouterData<Req, PResp>,
    pub http_code: u16,
}

/// Settings of one connector.
#[derive(Debug, PartialEq, Eq)]
pub struct ConnectorParams {
    pub base_url: String,
}

/// Settings of the connectors that the router knows.
#[derive(Debug, PartialEq, Eq)]
pub struct Connectors {
    pub axia: ConnectorParams,
}

} // verus!
