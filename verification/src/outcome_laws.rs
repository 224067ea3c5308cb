//! What each request carries and what each response is read into, stated
//! field by field over all inputs.
use vstd::prelude::*;

use crate::connector::request_headers_of;
use crate::consts::{NO_ERROR_CODE, NO_ERROR_MESSAGE};
use crate::flows;
use crate::request::{RequestBody, RequestContent};
use crate::transformers::{
    is_payments_outcome, is_purchase_result, is_refund_outcome, is_transaction_error,
    AxiaPaymentMethodData, TransactionPurchaseRequest, TransactionResponse,
};
use crate::types::{
    opt_view, shipping_zip, ConnectorAuthType, ConnectorError, PaymentMethodData,
    PaymentsAuthorizeData, PaymentsResponseData, ResponseId, RouterData, RouterErrorResponse,
};
use crate::specifications::{axia_capture_methods, axia_card_networks, CaptureMethod, CardNetwork};
use crate::vault_session::{sdk_env_text, vault_connector_named, Env, VaultConnectors};

verus! {

/// The fixed texts reported when the gateway gives no error code or message.
pub proof fn law_fallback_texts()
    ensures
        NO_ERROR_CODE@ == "No error code"@,
        NO_ERROR_MESSAGE@ == "No error message"@,
{
}

/// Every request carries, in order, the JSON content type shown as it is,
/// the key identifier masked under `X-Api-Key-Id` and the key masked under
/// `X-Api-Key`; credentials of any other kind give no headers.
pub proof fn law_request_headers_carry_credentials(auth: ConnectorAuthType)
    ensures
        match auth {
            ConnectorAuthType::BodyKey { api_key, key1 } => request_headers_of(auth) == Some(
                seq![
                    ("Content-Type"@, false, "application/json"@),
                    ("X-Api-Key-Id"@, true, api_key@),
                    ("X-Api-Key"@, true, key1@),
                ],
            ),
            _ => request_headers_of(auth) is None,
        },
{
}

/// Each flow's endpoint under the API's address.
pub proof fn law_flow_endpoints(base: Seq<char>, id: Seq<char>)
    ensures
        flows::authorize::url_of(base) == base + "api/v2/transaction/purchase"@,
        flows::customer::url_of(base) == base + "api/v2/customer"@,
        flows::setup_mandate::url_of(base) == base + "api/v2/vault/account"@,
        flows::void::url_of(base, id) == base + "api/v2/transaction/"@ + id + "/void"@,
        flows::refund_sync::url_of(base, id) == base + "api/v2/transaction/"@ + id + "/refund"@,
{
}

/// The router's error for a failed transaction: the processor code's name,
/// or the general code's when there is no processor code; the gateway's
/// verbiage, or `No error message`; the HTTP status; the transaction's
/// identifier; no reason and no attempt status.
pub proof fn law_failed_transaction_error(
    e: RouterErrorResponse,
    response: TransactionResponse,
    http_code: u16,
    transaction_id: Seq<char>,
)
    requires
        is_transaction_error(e, response, http_code, transaction_id),
    ensures
        response.phard_code matches Some(p) ==> e.code@ == p.display_text(),
        response.phard_code is None ==> e.code@ == response.code.display_text(),
        response.verbiage matches Some(v) ==> e.message@ == v@,
        response.verbiage is None ==> e.message@ == "No error message"@,
        e.status_code == http_code,
        opt_view(e.connector_transaction_id) == Some(transaction_id),
        e.reason is None,
        e.attempt_status is None,
{
}

/// A payment flow reports either the gateway's transaction identifier, as both
/// the resource and the reference identifier, or an error that names that
/// transaction and carries the HTTP status.
pub proof fn law_payment_outcome_names_transaction(
    outcome: Result<PaymentsResponseData, RouterErrorResponse>,
    response: TransactionResponse,
    http_code: u16,
)
    requires
        is_payments_outcome(outcome, response, http_code),
    ensures
        outcome matches Ok(p) ==> (p matches PaymentsResponseData::TransactionResponse {
            resource_id: ResponseId::ConnectorTransactionId(id),
            connector_response_reference_id: Some(reference),
        } && id@ == response.ttid@ && reference@ == response.ttid@),
        outcome matches Err(e) ==> (opt_view(e.connector_transaction_id) == Some(response.ttid@)
            && e.status_code == http_code),
{
}

/// A refund flow reports either the gateway's transaction identifier as the
/// refund's identifier, or an error that names that transaction and carries
/// the HTTP status.
pub proof fn law_refund_outcome_names_transaction(
    outcome: Result<crate::types::RefundsResponseData, RouterErrorResponse>,
    response: TransactionResponse,
    http_code: u16,
)
    requires
        is_refund_outcome(outcome, response, http_code),
    ensures
        outcome matches Ok(p) ==> p.connector_refund_id@ == response.ttid@,
        outcome matches Err(e) ==> (opt_view(e.connector_transaction_id) == Some(response.ttid@)
            && e.status_code == http_code),
{
}

/// A purchase body carries the amount it was given with the authorization's
/// currency and no profile; for a card or a vaulted card, the card's number as
/// the account, its security code, and the shipping zip code.
pub proof fn law_purchase_body_fields(
    r: Result<TransactionPurchaseRequest, ConnectorError>,
    item: RouterData<PaymentsAuthorizeData, PaymentsResponseData>,
    amount: String,
)
    requires
        is_purchase_result(r, item, amount),
    ensures
        r matches Ok(b) ==> (b.money.amount == amount && b.money.currency@
            == item.request.currency@ && b.profile_id is None && (b.shipping is Some
            <==> item.address.shipping is Some)),
        r matches Ok(b) ==> match item.request.payment_method_data {
            PaymentMethodData::Card(card) => {
                &&& b.payment_data matches Some(AxiaPaymentMethodData::Card(d))
                &&& d.account_data matches Some(a)
                &&& a.account@ == card.card_number@
                &&& d.verification matches Some(v)
                &&& v.cv@ == card.card_cvc@
                &&& Some(v.zip@) == shipping_zip(item.address)
            },
            PaymentMethodData::VaultDataCard(card) => {
                &&& b.payment_data matches Some(AxiaPaymentMethodData::VaultCard(d))
                &&& d.account_data matches Some(a)
                &&& a.account@ == card.card_number@
                &&& d.verification matches Some(v)
                &&& v.cv@ == card.card_cvc@
                &&& Some(v.zip@) == shipping_zip(item.address)
            },
            _ => false,
        },
{
}

/// A refund body carries the amount it was given with the refund's currency,
/// no profile, and exactly one extra property: the refund's identifier under
/// `external_refund_id`.
pub proof fn law_refund_body_fields(
    c: RequestContent,
    req: flows::refund_sync::RefundsRouterData,
    amount: String,
)
    requires
        flows::refund_sync::is_refund_body(c, req, amount),
    ensures
        c matches RequestContent::Json(RequestBody::Refund(b)) && b.money.amount == amount
            && b.money.currency@ == req.request.currency@ && b.profile_id is None
            && b.additional_property@.dom() == set!["external_refund_id"@]
            && b.additional_property@["external_refund_id"@] == req.request.refund_id@,
{
    if let RequestContent::Json(RequestBody::Refund(b)) = c {
        assert(b.additional_property@.dom() =~= set!["external_refund_id"@]);
    }
}

/// The vault names that the router knows: `vgs` and `hyperswitch_vault`; the
/// SDK environment is `live` in production and `sandbox` everywhere else.
pub proof fn law_vault_names_and_environments(name: Seq<char>, env: Env)
    ensures
        vault_connector_named("vgs"@) == Some(VaultConnectors::Vgs),
        vault_connector_named("hyperswitch_vault"@) == Some(VaultConnectors::HyperswitchVault),
        vault_connector_named(name) is Some ==> (name == "vgs"@ || name == "hyperswitch_vault"@),
        env == Env::Production ==> sdk_env_text(env) == "live"@,
        env != Env::Production ==> sdk_env_text(env) == "sandbox"@,
{
    reveal_strlit("vgs");
    reveal_strlit("hyperswitch_vault");
    assert("vgs"@.len() != "hyperswitch_vault"@.len());
}

/// Card payments are offered on Visa, Mastercard, American Express,
/// Discover, JCB, Diners Club and UnionPay, in that order, with automatic,
/// manual and sequential automatic capture.
pub proof fn law_card_networks_and_capture_methods()
    ensures
        axia_card_networks() == seq![
            CardNetwork::Visa,
            CardNetwork::Mastercard,
            CardNetwork::AmericanExpress,
            CardNetwork::Discover,
            CardNetwork::JCB,
            CardNetwork::DinersClub,
            CardNetwork::UnionPay,
        ],
        axia_capture_methods() == seq![
            CaptureMethod::Automatic,
            CaptureMethod::Manual,
            CaptureMethod::SequentialAutomatic,
        ],
{
}

} // verus!
