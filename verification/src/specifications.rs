//! What the connector declares about itself: the payment methods it takes,
//! its description, and its webhooks (none).
use vstd::prelude::*;

use crate::connector::Axia;
use crate::types::{ConnectorError, PaymentMethodType};

verus! {

/// Family of payment methods.
#[derive(Clone, Copy, Debug, PartialEq, Eq, Structural)]
pub enum PaymentMethod {
    Card,
    Wallet,
    PayLater,
    BankRedirect,
    BankTransfer,
}

/// Whether a feature is supported.
#[derive(Clone, Copy, Debug, PartialEq, Eq, Structural)]
pub enum FeatureStatus {
    NotSupported,
    Supported,
}

/// How a payment is captured.
#[derive(Clone, Copy, Debug, PartialEq, Eq, Structural)]
pub enum CaptureMethod {
    Automatic,
    Manual,
    ManualMultiple,
    Scheduled,
    SequentialAutomatic,
}

/// Card network.
#[derive(Clone, Copy, Debug, PartialEq, Eq, Structural)]
pub enum CardNetwork {
    Visa,
    Mastercard,
    AmericanExpress,
    JCB,
    DinersClub,
    Discover,
    CartesBancaires,
    UnionPay,
    Interac,
    RuPay,
    Maestro,
}

/// Features specific to card payments.
#[derive(Debug, PartialEq, Eq)]
pub struct CardSpecificFeatures {
    pub three_ds: FeatureStatus,
    pub no_three_ds: FeatureStatus,
    pub supported_card_networks: Vec<CardNetwork>,
}

/// Features specific to a family of payment methods.
#[derive(Debug, PartialEq, Eq)]
pub enum PaymentMethodSpecificFeatures {
    Card(CardSpecificFeatures),
}

/// What the connector supports for one payment method type.
#[derive(Debug, PartialEq, Eq)]
pub struct PaymentMethodDetails {
    pub mandates: FeatureStatus,
    pub refunds: FeatureStatus,
    pub supported_capture_methods: Vec<CaptureMethod>,
    pub specific_features: Option<PaymentMethodSpecificFeatures>,
}

/// One supported payment method type.
#[derive(Debug, PartialEq, Eq)]
pub struct SupportedPaymentMethod {
    pub payment_method: PaymentMethod,
    pub payment_method_type: PaymentMethodType,
    pub details: PaymentMethodDetails,
}

/// Kind of connector.
#[derive(Clone, Copy, Debug, PartialEq, Eq, Structural)]
pub enum HyperswitchConnectorCategory {
    PaymentGateway,
    AlternativePaymentMethod,
    BankAcquirer,
    PayoutProcessor,
    AuthenticationProvider,
    FraudAndRiskManagementProvider,
    TaxCalculationProvider,
    RevenueGrowthManagementPlatform,
}

/// Whether a connector is live.
#[derive(Clone, Copy, Debug, PartialEq, Eq, Structural)]
pub enum ConnectorIntegrationStatus {
    Live,
    Sandbox,
    Beta,
    Alpha,
}

/// A connector's description.
#[derive(Debug, PartialEq, Eq)]
pub struct ConnectorInfo {
    pub display_name: &'static str,
    pub description: &'static str,
    pub connector_type: HyperswitchConnectorCategory,
    pub integration_status: ConnectorIntegrationStatus,
}

/// Class of webhook events.
#[derive(Clone, Copy, Debug, PartialEq, Eq, Structural)]
pub enum EventClass {
    Payments,
    Refunds,
    Disputes,
    Mandates,
    Payouts,
}

/// The card networks that the connector takes.
pub open spec fn axia_card_networks() -> Seq<CardNetwork> {
    seq![
        CardNetwork::Visa,
        CardNetwork::Mastercard,
        CardNetwork::AmericanExpress,
        CardNetwork::Discover,
        CardNetwork::JCB,
        CardNetwork::DinersClub,
        CardNetwork::UnionPay,
    ]
}

/// The capture methods that the connector takes.
pub open spec fn axia_capture_methods() -> Seq<CaptureMethod> {
    seq![CaptureMethod::Automatic, CaptureMethod::Manual, CaptureMethod::SequentialAutomatic]
}

/// `d` describes card payments with mandates, refunds, 3DS and non-3DS,
/// the connector's capture methods and card networks.
pub open spec fn is_card_details(d: PaymentMethodDetails) -> bool {
    &&& d.mandates == FeatureStatus::Supported
    &&& d.refunds == FeatureStatus::Supported
    &&& d.supported_capture_methods@ == axia_capture_methods()
    &&& d.specific_features matches Some(PaymentMethodSpecificFeatures::Card(f))
        && f.three_ds == FeatureStatus::Supported && f.no_three_ds == FeatureStatus::Supported
        && f.supported_card_networks@ == axia_card_networks()
}

fn card_networks() -> (v: Vec<CardNetwork>)
    ensures
        v@ == axia_card_networks(),
{
    let mut v: Vec<CardNetwork> = Vec::new();
    v.push(CardNetwork::Visa);
    v.push(CardNetwork::Mastercard);
    v.push(CardNetwork::AmericanExpress);
    v.push(CardNetwork::Discover);
    v.push(CardNetwork::JCB);
    v.push(CardNetwork::DinersClub);
    v.push(CardNetwork::UnionPay);
    assert(v@ =~= axia_card_networks());
    v
}

fn capture_methods() -> (v: Vec<CaptureMethod>)
    ensures
        v@ == axia_capture_methods(),
{
    let mut v: Vec<CaptureMethod> = Vec::new();
    v.push(CaptureMethod::Automatic);
    v.push(CaptureMethod::Manual);
    v.push(CaptureMethod::SequentialAutomatic);
    assert(v@ =~= axia_capture_methods());
    v
}

fn card_details() -> (d: PaymentMethodDetails)
    ensures
        is_card_details(d),
{
    PaymentMethodDetails {
        mandates: FeatureStatus::Supported,
        refunds: FeatureStatus::Supported,
        supported_capture_methods: capture_methods(),
        specific_features: Some(
            PaymentMethodSpecificFeatures::Card(
                CardSpecificFeatures {
                    three_ds: FeatureStatus::Supported,
                    no_three_ds: FeatureStatus::Supported,
                    supported_card_networks: card_networks(),
                },
            ),
        ),
    }
}

/// Request details of an incoming webhook.
#[derive(Debug, PartialEq, Eq)]
pub struct IncomingWebhookRequestDetails {
    pub body: Vec<u8>,
}

/// The object an incoming webhook is about.
#[derive(Debug, PartialEq, Eq)]
pub enum ObjectReferenceId {
    PaymentId(String),
    RefundId(String),
}

/// The event an incoming webhook reports.
#[derive(Clone, Copy, Debug, PartialEq, Eq, Structural)]
pub enum IncomingWebhookEvent {
    EventNotSupported,
    PaymentIntentSuccess,
    PaymentIntentFailure,
    RefundSuccess,
    RefundFailure,
}

impl Axia {
    /// The connector's description: a live payment gateway named Axia.
    pub fn get_connector_about(&self) -> (r: Option<ConnectorInfo>)
        ensures
            r matches Some(i) && i.display_name@ == "Axia"@ && i.description@
                == "Axia connector"@ && i.connector_type
                == HyperswitchConnectorCategory::PaymentGateway && i.integration_status
                == ConnectorIntegrationStatus::Live,
    {
        Some(
            ConnectorInfo {
                display_name: "Axia",
                description: "Axia connector",
                connector_type: HyperswitchConnectorCategory::PaymentGateway,
                integration_status: ConnectorIntegrationStatus::Live,
            },
        )
    }

    /// The payment methods the connector takes: credit and debit cards.
    pub fn get_supported_payment_methods(&self) -> (r: Option<Vec<SupportedPaymentMethod>>)
        ensures
            r matches Some(v) && v@.len() == 2 && v@[0].payment_method == PaymentMethod::Card
                && v@[0].payment_method_type == PaymentMethodType::Credit && is_card_details(
                v@[0].details,
            ) && v@[1].payment_method == PaymentMethod::Card && v@[1].payment_method_type
                == PaymentMethodType::Debit && is_card_details(v@[1].details),
    {
        let mut methods: Vec<SupportedPaymentMethod> = Vec::new();
        methods.push(
            SupportedPaymentMethod {
                payment_method: PaymentMethod::Card,
                payment_method_type: PaymentMethodType::Credit,
                details: card_details(),
            },
        );
        methods.push(
            SupportedPaymentMethod {
                payment_method: PaymentMethod::Card,
                payment_method_type: PaymentMethodType::Debit,
                details: card_details(),
            },
        );
        Some(methods)
    }

    /// The connector handles no webhook events.
    pub fn get_supported_webhook_flows(&self) -> (r: Option<Vec<EventClass>>)
        ensures
            r matches Some(v) && v@.len() == 0,
    {
        Some(Vec::new())
    }

    /// Webhooks are not implemented.
    pub fn get_webhook_object_reference_id(&self, _request: &IncomingWebhookRequestDetails) -> (r:
        Result<ObjectReferenceId, ConnectorError>)
        ensures
            r == Err::<ObjectReferenceId, ConnectorError>(ConnectorError::WebhooksNotImplemented),
    {
        Err(ConnectorError::WebhooksNotImplemented)
    }

    /// Webhooks are not implemented.
    pub fn get_webhook_event_type(&self, _request: &IncomingWebhookRequestDetails) -> (r: Result<
        IncomingWebhookEvent,
        ConnectorError,
    >)
        ensures
            r == Err::<IncomingWebhookEvent, ConnectorError>(ConnectorError::WebhooksNotImplemented),
    {
        Err(ConnectorError::WebhooksNotImplemented)
    }

    /// Webhooks are not implemented.
    pub fn get_webhook_resource_object(&self, _request: &IncomingWebhookRequestDetails) -> (r: Result<
        Vec<u8>,
        ConnectorError,
    >)
        ensures
            r == Err::<Vec<u8>, ConnectorError>(ConnectorError::WebhooksNotImplemented),
    {
        Err(ConnectorError::WebhooksNotImplemented)
    }
}

} // verus!
