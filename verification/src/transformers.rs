//! Axia's request and response bodies: how they are built from, and read back
//! into, the router's payment model.
use vstd::prelude::*;

use crate::codes::{Cardtype, Code, Flags, MsoftCode, PhardCode};
use crate::consts::{CONNECTOR_ID, NO_ERROR_MESSAGE};
use crate::json::{json_object_entries, json_object_entries_or_empty};
use crate::string_map::{pairs_map, pairs_view, StringMap};
use crate::types::{
    clone_opt, is_payment_failure, is_refund_failure, opt_view, shipping_country, shipping_zip,
    AttemptStatus, Card, ConnectorAuthType, ConnectorCustomerData, ConnectorError,
    ExternalVaultCard, PaymentAddress, PaymentMethodData, PaymentsAuthorizeData,
    PaymentsResponseData, RefundStatus, RefundsData, RefundsResponseData, ResponseId,
    ResponseRouterData, RouterData, RouterErrorResponse,
};
use crate::utils::{
    expiry_date_as_mmyy, expiry_mmyy, get_unimplemented_payment_method_error_message,
    unimplemented_payment_method_message,
};

verus! {

/// Error body returned by the gateway.
#[derive(Clone, Default, Debug, PartialEq)]
pub struct ErrorResponse {
    pub code: Option<Code>,
    pub msoft_code: Option<MsoftCode>,
    /// Text meant for display to a clerk.
    pub verbiage: Option<String>,
}

/// Body of the customer-creation request.
#[derive(Clone, Default, Debug, PartialEq)]
pub struct CustomerRequest {
    pub profile_id: Option<String>,
    pub display_name: Option<String>,
    pub name_company: Option<String>,
    pub name_prefix: Option<String>,
    pub name_first: Option<String>,
    pub name_middle: Option<String>,
    pub name_last: Option<String>,
    pub name_suffix: Option<String>,
    pub phone_work: Option<String>,
    pub phone_home: Option<String>,
    pub phone_mobile: Option<String>,
    pub phone_fax: Option<String>,
    pub email: Option<String>,
    pub website: Option<String>,
    pub business_id: Option<String>,
    pub accounting_id: Option<String>,
    pub notes: Option<String>,
    pub flags: Option<Flags>,
}

/// Body of the customer-creation response.
#[derive(Clone, Default, Debug, PartialEq)]
pub struct AxiaCustomerResponse {
    pub code: Option<Code>,
    pub msoft_code: Option<MsoftCode>,
    pub verbiage: Option<String>,
    pub id: Option<String>,
}

/// Body of a transaction response (purchase, void, refund).
#[derive(Debug, Default, Eq, PartialEq)]
pub struct TransactionResponse {
    pub code: Code,
    pub msoft_code: Option<MsoftCode>,
    pub verbiage: Option<String>,
    pub phard_code: Option<PhardCode>,
    pub card_currency: Option<String>,
    pub card_cardlevel: Option<String>,
    pub card_country_code: Option<String>,
    pub card_debit_network: Option<String>,
    pub card_ebt_state: Option<String>,
    pub card_issuer_bank: Option<String>,
    pub printdata: Option<String>,
    pub account: Option<String>,
    pub cardtype: Option<Cardtype>,
    pub cardholdername: Option<String>,
    pub timestamp: Option<String>,
    /// The gateway's transaction identifier.
    pub ttid: String,
}

/// A flow's data with its amount in the unit Axia takes.
pub struct AxiaRouterData<T> {
    /// The amount in the currency's major unit, as decimal text.
    pub amount: String,
    pub router_data: T,
}

impl<T> From<(String, T)> for AxiaRouterData<T> {
    fn from(v: (String, T)) -> (r: AxiaRouterData<T>) {
        AxiaRouterData { amount: v.0, router_data: v.1 }
    }
}

impl<T> vstd::std_specs::convert::FromSpecImpl<(String, T)> for AxiaRouterData<T> {
    open spec fn obeys_from_spec() -> bool {
        true
    }

    open spec fn from_spec(v: (String, T)) -> AxiaRouterData<T> {
        AxiaRouterData { amount: v.0, router_data: v.1 }
    }
}

/// Credentials of an Axia account.
pub struct AxiaAuthType {
    pub api_key: String,
    pub key1: String,
}

impl AxiaAuthType {
    /// Reads Axia's credentials, which must be of the body-key kind.
    pub fn try_from(auth_type: &ConnectorAuthType) -> (r: Result<AxiaAuthType, ConnectorError>)
        ensures
            match *auth_type {
                ConnectorAuthType::BodyKey { api_key, key1 } => r matches Ok(a) && a.api_key@
                    == api_key@ && a.key1@ == key1@,
                _ => r == Err::<AxiaAuthType, ConnectorError>(
                    ConnectorError::FailedToObtainAuthType,
                ),
            },
    {
        match auth_type {
            ConnectorAuthType::BodyKey { api_key, key1 } => Ok(
                AxiaAuthType { api_key: api_key.clone(), key1: key1.clone() },
            ),
            _ => Err(ConnectorError::FailedToObtainAuthType),
        }
    }
}

/// A transaction's general and processor result codes, read as a payment
/// outcome.
#[derive(Clone, Copy, Debug, PartialEq, Eq, Structural)]
pub struct AxiaPaymentStatus(pub Code, pub Option<PhardCode>);

/// The attempt status that a transaction's codes report: approved
/// (`AUTH` with `SUCCESS`) is charged, `AUTH` with `ALREADY_REVERSED` is
/// voided, anything else has failed.
pub open spec fn payment_status_of(code: Code, phard_code: Option<PhardCode>) -> AttemptStatus {
    match (code, phard_code) {
        (Code::Auth, Some(PhardCode::Success)) => AttemptStatus::Charged,
        (Code::Auth, Some(PhardCode::AlreadyReversed)) => AttemptStatus::Voided,
        _ => AttemptStatus::Failure,
    }
}

impl From<AxiaPaymentStatus> for AttemptStatus {
    fn from(item: AxiaPaymentStatus) -> (r: AttemptStatus) {
        match (item.0, item.1) {
            (Code::Auth, Some(phard_code)) => {
                match phard_code {
                    PhardCode::Success => AttemptStatus::Charged,
                    PhardCode::AlreadyReversed => AttemptStatus::Voided,
                    _ => AttemptStatus::Failure,
                }
            },
            (_, _) => AttemptStatus::Failure,
        }
    }
}

impl vstd::std_specs::convert::FromSpecImpl<AxiaPaymentStatus> for AttemptStatus {
    open spec fn obeys_from_spec() -> bool {
        true
    }

    open spec fn from_spec(v: AxiaPaymentStatus) -> AttemptStatus {
        payment_status_of(v.0, v.1)
    }
}

/// A transaction's general and processor result codes, read as a refund
/// outcome.
#[derive(Clone, Copy, Debug, PartialEq, Eq, Structural)]
pub struct AxiaRefundStatus(pub Code, pub Option<PhardCode>);

/// The refund status that a transaction's codes report: approved (`AUTH`
/// with `SUCCESS`) is a success, anything else a failure.
pub open spec fn refund_status_of(code: Code, phard_code: Option<PhardCode>) -> RefundStatus {
    match (code, phard_code) {
        (Code::Auth, Some(PhardCode::Success)) => RefundStatus::Success,
        _ => RefundStatus::Failure,
    }
}

impl From<AxiaRefundStatus> for RefundStatus {
    fn from(item: AxiaRefundStatus) -> (r: RefundStatus) {
        match (item.0, item.1) {
            (Code::Auth, Some(phard_code)) => {
                if matches!(phard_code, PhardCode::Success) {
                    RefundStatus::Success
                } else {
                    RefundStatus::Failure
                }
            },
            (_, _) => RefundStatus::Failure,
        }
    }
}

impl vstd::std_specs::convert::FromSpecImpl<AxiaRefundStatus> for RefundStatus {
    open spec fn obeys_from_spec() -> bool {
        true
    }

    open spec fn from_spec(v: AxiaRefundStatus) -> RefundStatus {
        refund_status_of(v.0, v.1)
    }
}


impl CustomerRequest {
    /// The customer body for the router's customer data: the description
    /// becomes the notes, the phone the mobile phone, the name the display
    /// name; every other field is left out.
    pub fn try_from(item: &RouterData<ConnectorCustomerData, PaymentsResponseData>) -> (r: Result<
        CustomerRequest,
        ConnectorError,
    >)
        ensures
            r matches Ok(c) && c.is_built_from(item.request),
    {
        Ok(
            CustomerRequest {
                profile_id: None,
                notes: clone_opt(&item.request.description),
                email: clone_opt(&item.request.email),
                website: None,
                business_id: None,
                phone_mobile: clone_opt(&item.request.phone),
                display_name: clone_opt(&item.request.name),
                name_company: None,
                name_prefix: None,
                name_first: None,
                name_middle: None,
                name_last: None,
                name_suffix: None,
                phone_work: None,
                phone_home: None,
                phone_fax: None,
                accounting_id: None,
                flags: None,
            },
        )
    }

    /// This body carries the given customer data and nothing else.
    pub open spec fn is_built_from(self, d: ConnectorCustomerData) -> bool {
        &&& opt_view(self.notes) == opt_view(d.description)
        &&& opt_view(self.email) == opt_view(d.email)
        &&& opt_view(self.phone_mobile) == opt_view(d.phone)
        &&& opt_view(self.display_name) == opt_view(d.name)
        &&& self.profile_id is None
        &&& self.website is None
        &&& self.business_id is None
        &&& self.name_company is None
        &&& self.name_prefix is None
        &&& self.name_first is None
        &&& self.name_middle is None
        &&& self.name_last is None
        &&& self.name_suffix is None
        &&& self.phone_work is None
        &&& self.phone_home is None
        &&& self.phone_fax is None
        &&& self.accounting_id is None
        &&& self.flags is None
    }
}

/// The error code reported for a transaction: the display form of the
/// processor code when there is one, else that of the general code.
pub open spec fn error_code_text(code: Code, phard_code: Option<PhardCode>) -> Seq<char> {
    match phard_code {
        Some(p) => p.display_text(),
        None => code.display_text(),
    }
}

/// The error message reported for a transaction: the gateway's verbiage, or
/// a fixed text when there is none.
pub open spec fn error_message_text(verbiage: Option<String>) -> Seq<char> {
    match verbiage {
        Some(v) => v@,
        None => NO_ERROR_MESSAGE@,
    }
}

/// `e` is the router's error for the failed transaction `response`, received
/// with HTTP status `http_code`, and naming `transaction_id`.
pub open spec fn is_transaction_error(
    e: RouterErrorResponse,
    response: TransactionResponse,
    http_code: u16,
    transaction_id: Seq<char>,
) -> bool {
    &&& e.code@ == error_code_text(response.code, response.phard_code)
    &&& e.message@ == error_message_text(response.verbiage)
    &&& e.reason is None
    &&& e.status_code == http_code
    &&& e.attempt_status is None
    &&& opt_view(e.connector_transaction_id) == Some(transaction_id)
}

/// `d` reports a transaction that the gateway knows as `ttid`.
pub open spec fn is_transaction_success(d: PaymentsResponseData, ttid: Seq<char>) -> bool {
    d matches PaymentsResponseData::TransactionResponse {
        resource_id: ResponseId::ConnectorTransactionId(id),
        connector_response_reference_id: Some(reference),
    } && id@ == ttid && reference@ == ttid
}

/// `outcome` is what a payment flow reports for `response`: the transaction's
/// identifier when its status is not a failure, the router's error otherwise.
pub open spec fn is_payments_outcome(
    outcome: Result<PaymentsResponseData, RouterErrorResponse>,
    response: TransactionResponse,
    http_code: u16,
) -> bool {
    let status = payment_status_of(response.code, response.phard_code);
    match outcome {
        Ok(p) => !status.is_failure() && is_transaction_success(p, response.ttid@),
        Err(e) => status.is_failure() && is_transaction_error(e, response, http_code, response.ttid@),
    }
}

/// `outcome` is what a refund flow reports for `response`: the refund's
/// identifier and status when the refund did not fail, the router's error
/// otherwise.
pub open spec fn is_refund_outcome(
    outcome: Result<RefundsResponseData, RouterErrorResponse>,
    response: TransactionResponse,
    http_code: u16,
) -> bool {
    let status = refund_status_of(response.code, response.phard_code);
    match outcome {
        Ok(p) => !status.is_failure() && p.connector_refund_id@ == response.ttid@
            && p.refund_status == status,
        Err(e) => status.is_failure() && is_transaction_error(e, response, http_code, response.ttid@),
    }
}

/// Builds the router's error for a failed transaction.
fn transaction_error(response: &TransactionResponse, http_code: u16, response_id: String) -> (e:
    RouterErrorResponse)
    ensures
        is_transaction_error(e, *response, http_code, response_id@),
{
    let code = match response.phard_code {
        Some(phard_code) => phard_code.to_string(),
        None => response.code.to_string(),
    };
    let message = match &response.verbiage {
        Some(v) => v.clone(),
        None => NO_ERROR_MESSAGE.to_owned(),
    };
    RouterErrorResponse {
        code,
        message,
        reason: None,
        status_code: http_code,
        attempt_status: None,
        connector_transaction_id: Some(response_id),
    }
}

/// The response of a failed payment transaction: always the router's error
/// built from the transaction's codes and verbiage.
pub fn get_axia_payments_response_data(
    response: &TransactionResponse,
    http_code: u16,
    response_id: String,
) -> (r: Result<PaymentsResponseData, RouterErrorResponse>)
    ensures
        r matches Err(e) && is_transaction_error(e, *response, http_code, response_id@),
{
    Err(transaction_error(response, http_code, response_id))
}

impl<Req> RouterData<Req, PaymentsResponseData> {
    /// Records the outcome of a payment transaction: its status, and either the
    /// transaction's identifier or, when it failed, the router's error.
    pub fn try_from_transaction_response(
        item: ResponseRouterData<TransactionResponse, Req, PaymentsResponseData>,
    ) -> (r: Result<RouterData<Req, PaymentsResponseData>, ConnectorError>)
        ensures
            r matches Ok(d) && d.same_inputs(item.data) && d.status == payment_status_of(
                item.response.code,
                item.response.phard_code,
            ) && is_payments_outcome(d.response, item.response, item.http_code),
    {
        let axia_payment_status = AxiaPaymentStatus(item.response.code, item.response.phard_code);
        let status = AttemptStatus::from(axia_payment_status);
        let response = if is_payment_failure(status) {
            get_axia_payments_response_data(&item.response, item.http_code, item.response.ttid.clone())
        } else {
            Ok(
                PaymentsResponseData::TransactionResponse {
                    resource_id: ResponseId::ConnectorTransactionId(item.response.ttid.clone()),
                    connector_response_reference_id: Some(item.response.ttid.clone()),
                },
            )
        };
        let data = item.data;
        Ok(
            RouterData {
                status,
                response,
                connector_auth_type: data.connector_auth_type,
                connector_request_reference_id: data.connector_request_reference_id,
                address: data.address,
                request: data.request,
            },
        )
    }

    /// Records the customer that the gateway created. The gateway's response
    /// must name the customer.
    pub fn try_from_customer_response(
        item: ResponseRouterData<AxiaCustomerResponse, Req, PaymentsResponseData>,
    ) -> (r: Result<RouterData<Req, PaymentsResponseData>, ConnectorError>)
        requires
            item.response.id is Some,
        ensures
            r matches Ok(d) && d.same_inputs(item.data) && d.status == item.data.status
                && d.response == Ok::<PaymentsResponseData, RouterErrorResponse>(
                PaymentsResponseData::ConnectorCustomerResponse {
                    connector_customer_id: item.response.id->0,
                },
            ),
    {
        let id = match item.response.id {
            Some(id) => id,
            None => {
                proof {
                    assert(false);
                }
                String::new()
            },
        };
        let data = item.data;
        Ok(
            RouterData {
                status: data.status,
                response: Ok(PaymentsResponseData::ConnectorCustomerResponse { connector_customer_id: id }),
                connector_auth_type: data.connector_auth_type,
                connector_request_reference_id: data.connector_request_reference_id,
                address: data.address,
                request: data.request,
            },
        )
    }
}

/// Body of a refund request.
#[derive(Debug)]
pub struct RefundRequest {
    pub profile_id: Option<String>,
    pub money: Money,
    /// Extra properties, sent flattened into the body.
    pub additional_property: StringMap,
}

/// An amount with its currency.
#[derive(Debug, Eq, PartialEq)]
pub struct Money {
    /// The amount in the currency's major unit, as decimal text.
    pub amount: String,
    /// Three-letter currency code.
    pub currency: String,
}

impl RefundRequest {
    /// The refund body: the amount (already in the major unit) with the
    /// refund's currency, and the refund's identifier as the external refund
    /// identifier.
    pub fn try_from(item: &RouterData<RefundsData, RefundsResponseData>, refund_amount: String) -> (r:
        Result<RefundRequest, ConnectorError>)
        ensures
            r matches Ok(b) && b.profile_id is None && b.money.amount == refund_amount
                && b.money.currency@ == item.request.currency@ && b.additional_property@
                == Map::<Seq<char>, Seq<char>>::empty().insert(
                "external_refund_id"@,
                item.request.refund_id@,
            ),
    {
        let money = Money { amount: refund_amount, currency: item.request.currency.clone() };
        let mut additional_property = StringMap::new();
        additional_property.insert("external_refund_id".to_owned(), item.request.refund_id.clone());
        Ok(RefundRequest { money, profile_id: None, additional_property })
    }
}

impl RouterData<RefundsData, RefundsResponseData> {
    /// Records the outcome of a refund: the refund's status and identifier or,
    /// when it failed, the router's error.
    pub fn try_from_refund_response(
        item: ResponseRouterData<TransactionResponse, RefundsData, RefundsResponseData>,
    ) -> (r: Result<RouterData<RefundsData, RefundsResponseData>, ConnectorError>)
        ensures
            r matches Ok(d) && d.same_inputs(item.data) && d.status == item.data.status
                && is_refund_outcome(d.response, item.response, item.http_code),
    {
        let axia_refund_status = AxiaRefundStatus(item.response.code, item.response.phard_code);
        let refund_status = RefundStatus::from(axia_refund_status);
        let response = if is_refund_failure(refund_status) {
            Err(transaction_error(&item.response, item.http_code, item.response.ttid.clone()))
        } else {
            Ok(
                RefundsResponseData {
                    connector_refund_id: item.response.ttid.clone(),
                    refund_status,
                },
            )
        };
        let data = item.data;
        Ok(
            RouterData {
                status: data.status,
                response,
                connector_auth_type: data.connector_auth_type,
                connector_request_reference_id: data.connector_request_reference_id,
                address: data.address,
                request: data.request,
            },
        )
    }
}

/// The extra properties of a purchase: the order identifier under
/// `external_order_id`, then each entry of the merchant's metadata object
/// under its key prefixed with `external_`, a later entry overriding an
/// earlier one with the same key.
pub open spec fn transaction_metadata(metadata: Option<Seq<char>>, order_id: Seq<char>) -> Map<
    Seq<char>,
    Seq<char>,
> {
    let first = seq![("external_order_id"@, order_id)];
    match metadata {
        Some(text) => match json_object_entries(text) {
            Some(entries) => pairs_map(first + prefixed_entries(entries)),
            None => pairs_map(first),
        },
        None => pairs_map(first),
    }
}

/// Each entry with its key prefixed with `external_`.
pub open spec fn prefixed_entries(entries: Seq<(Seq<char>, Seq<char>)>) -> Seq<
    (Seq<char>, Seq<char>),
> {
    entries.map_values(|e: (Seq<char>, Seq<char>)| ("external_"@ + e.0, e.1))
}

/// The extra properties of a purchase from the entries already read out of
/// the merchant's metadata: the order identifier under `external_order_id`,
/// then each entry under its key prefixed with `external_`, a later entry
/// overriding an earlier one with the same key.
pub fn transaction_metadata_from_entries(entries: Vec<(String, String)>, order_id: String) -> (r:
    StringMap)
    ensures
        r@ == pairs_map(
            seq![("external_order_id"@, order_id@)] + prefixed_entries(pairs_view(entries@)),
        ),
{
    let ghost first = seq![("external_order_id"@, order_id@)];
    let ghost all = first + prefixed_entries(pairs_view(entries@));
    let mut meta_data = StringMap::new();
    meta_data.insert("external_order_id".to_owned(), order_id);
    assert(meta_data@ =~= pairs_map(first)) by {
        assert(first.drop_last() =~= Seq::<(Seq<char>, Seq<char>)>::empty());
        reveal_with_fuel(pairs_map, 2);
    }
    let n = entries.len();
    assert(all.len() == n + 1);
    assert(all.take(1) =~= first);
    for i in 0..n
        invariant
            n == entries@.len(),
            all == first + prefixed_entries(pairs_view(entries@)),
            meta_data@ == pairs_map(all.take(i + 1)),
            all.len() == n + 1,
    {
        let key = "external_".to_owned().concat(entries[i].0.as_str());
        meta_data.insert(key, entries[i].1.clone());
        assert(all.take(i + 2).drop_last() =~= all.take(i + 1));
        assert(all[i + 1] == ("external_"@ + entries@[i as int].0@, entries@[i as int].1@));
    }
    assert(all.take(n + 1) =~= all);
    meta_data
}

/// The extra properties of a purchase, from the merchant's metadata (JSON
/// text) and the order identifier.
pub fn get_transaction_metadata(merchant_metadata: Option<String>, order_id: String) -> (r:
    StringMap)
    ensures
        r@ == transaction_metadata(opt_view(merchant_metadata), order_id@),
{
    let entries = match &merchant_metadata {
        Some(metadata) => json_object_entries_or_empty(metadata.as_str()),
        None => Vec::new(),
    };
    let ghost first = seq![("external_order_id"@, order_id@)];
    proof {
        if !(opt_view(merchant_metadata) matches Some(text) && json_object_entries(text) is Some) {
            assert(pairs_view(entries@) =~= Seq::<(Seq<char>, Seq<char>)>::empty());
            assert(first + prefixed_entries(pairs_view(entries@)) =~= first);
        }
    }
    transaction_metadata_from_entries(entries, order_id)
}

/// A card's account number with its expiry date.
#[derive(Debug, Eq, PartialEq)]
pub struct AxiaAccountData<T> {
    pub account: T,
    /// Expiry date in MMYY form: the month with two digits, then the
    /// two-digit year.
    pub expdate: String,
}

/// Card verification data: the security code and the billing zip code.
#[derive(Debug, Eq, PartialEq)]
pub struct Verification {
    pub cv: String,
    pub zip: String,
}

/// A card entered by the customer, as Axia takes it.
#[derive(Debug, Eq, PartialEq)]
pub struct AxiaCardData {
    pub verification: Option<Verification>,
    pub account_data: Option<AxiaAccountData<String>>,
}

/// A card held in an external vault, as Axia takes it.
#[derive(Debug, Eq, PartialEq)]
pub struct AxiaVaultCardData {
    pub verification: Option<Verification>,
    pub account_data: Option<AxiaAccountData<String>>,
}

/// The payment method of a purchase.
#[derive(Debug, Eq, PartialEq)]
pub enum AxiaPaymentMethodData {
    Card(AxiaCardData),
    VaultCard(AxiaVaultCardData),
}

/// Shipping address of a purchase.
#[derive(Debug, Eq, PartialEq)]
pub struct AxiaShippingAddress {
    pub ship_country: Option<String>,
    pub ship_zip: Option<String>,
}

/// The field named when the shipping zip code is missing.
pub open spec fn missing_shipping_zip() -> ConnectorError {
    ConnectorError::MissingRequiredField { field_name: "shipping.address.zip" }
}

/// The error, if any, in turning a card's expiry month and year into Axia's
/// card data for a purchase shipped to `address`: an expiry date that cannot
/// be written in MMYY form, then a missing shipping zip code.
pub open spec fn card_data_error(month: Seq<char>, year: Seq<char>, address: PaymentAddress) -> Option<
    ConnectorError,
> {
    match expiry_mmyy(month, year) {
        Err(e) => Some(e),
        Ok(_) => if shipping_zip(address) is None {
            Some(missing_shipping_zip())
        } else {
            None
        },
    }
}

/// `v` verifies with security code `cvc` and zip code `zip`, and `a` names
/// account `number` expiring at `expdate`.
pub open spec fn is_card_parts(
    v: Option<Verification>,
    a: Option<AxiaAccountData<String>>,
    number: Seq<char>,
    cvc: Seq<char>,
    zip: Seq<char>,
    expdate: Seq<char>,
) -> bool {
    &&& v matches Some(v) && v.cv@ == cvc && v.zip@ == zip
    &&& a matches Some(a) && a.account@ == number && a.expdate@ == expdate
}

/// `p` is Axia's card data for `card`, shipped to `address`.
pub open spec fn is_card_data(p: AxiaPaymentMethodData, card: Card, address: PaymentAddress) -> bool {
    p matches AxiaPaymentMethodData::Card(d) && is_card_parts(
        d.verification,
        d.account_data,
        card.card_number@,
        card.card_cvc@,
        shipping_zip(address)->0,
        expiry_mmyy(card.card_exp_month@, card.card_exp_year@)->Ok_0,
    )
}

/// `p` is Axia's card data for the vaulted `card`, shipped to `address`.
pub open spec fn is_vault_card_data(
    p: AxiaPaymentMethodData,
    card: ExternalVaultCard,
    address: PaymentAddress,
) -> bool {
    p matches AxiaPaymentMethodData::VaultCard(d) && is_card_parts(
        d.verification,
        d.account_data,
        card.card_number@,
        card.card_cvc@,
        shipping_zip(address)->0,
        expiry_mmyy(card.card_exp_month@, card.card_exp_year@)->Ok_0,
    )
}

impl AxiaPaymentMethodData {
    /// Axia's card data for a card of the given authorization.
    pub fn try_from_card(
        item: &RouterData<PaymentsAuthorizeData, PaymentsResponseData>,
        card: &Card,
    ) -> (r: Result<AxiaPaymentMethodData, ConnectorError>)
        ensures
            match r {
                Ok(p) => card_data_error(card.card_exp_month@, card.card_exp_year@, item.address)
                    is None && is_card_data(
                    p,
                    *card,
                    item.address,
                ),
                Err(e) => card_data_error(card.card_exp_month@, card.card_exp_year@, item.address)
                    == Some(e),
            },
    {
        let expdate = card.get_expiry_date_as_mmyy()?;
        let account_data = AxiaAccountData { account: card.card_number.clone(), expdate };
        let shipping_zip = match item.address.get_optional_shipping_zip() {
            Some(zip) => zip,
            None => {
                return Err(
                    ConnectorError::MissingRequiredField { field_name: "shipping.address.zip" },
                );
            },
        };
        let verification = Verification { cv: card.card_cvc.clone(), zip: shipping_zip };
        Ok(
            AxiaPaymentMethodData::Card(
                AxiaCardData {
                    verification: Some(verification),
                    account_data: Some(account_data),
                },
            ),
        )
    }

    /// Axia's card data for a vaulted card of the given authorization.
    pub fn try_from_vault_card(
        item: &RouterData<PaymentsAuthorizeData, PaymentsResponseData>,
        card: &ExternalVaultCard,
    ) -> (r: Result<AxiaPaymentMethodData, ConnectorError>)
        ensures
            match r {
                Ok(p) => card_data_error(card.card_exp_month@, card.card_exp_year@, item.address)
                    is None && is_vault_card_data(
                    p,
                    *card,
                    item.address,
                ),
                Err(e) => card_data_error(card.card_exp_month@, card.card_exp_year@, item.address)
                    == Some(e),
            },
    {
        let expdate = expiry_date_as_mmyy(
            card.card_exp_month.as_str(),
            card.card_exp_year.as_str(),
        )?;
        let account_data = AxiaAccountData { account: card.card_number.clone(), expdate };
        let shipping_zip = match item.address.get_optional_shipping_zip() {
            Some(zip) => zip,
            None => {
                return Err(
                    ConnectorError::MissingRequiredField { field_name: "shipping.address.zip" },
                );
            },
        };
        let verification = Verification { cv: card.card_cvc.clone(), zip: shipping_zip };
        Ok(
            AxiaPaymentMethodData::VaultCard(
                AxiaVaultCardData {
                    verification: Some(verification),
                    account_data: Some(account_data),
                },
            ),
        )
    }
}

/// Body of a purchase request.
#[derive(Debug)]
pub struct TransactionPurchaseRequest {
    pub profile_id: Option<String>,
    /// The payment method, sent flattened into the body.
    pub payment_data: Option<AxiaPaymentMethodData>,
    pub money: Money,
    /// Extra properties, sent flattened into the body.
    pub additional_property: StringMap,
    pub shipping: Option<AxiaShippingAddress>,
}

/// `e` is the error for a payment method that the connector does not take.
pub open spec fn is_unimplemented_payment_method(e: ConnectorError) -> bool {
    e matches ConnectorError::NotImplemented(m) && m@ == unimplemented_payment_method_message(
        CONNECTOR_ID@,
    )
}

/// The parts of a purchase body that do not depend on the payment method:
/// no profile, the amount with the authorization's currency, the extra
/// properties from the metadata and order reference, and the shipping
/// country and zip code when there is a shipping address.
pub open spec fn is_purchase_frame(
    b: TransactionPurchaseRequest,
    item: RouterData<PaymentsAuthorizeData, PaymentsResponseData>,
    amount: String,
) -> bool {
    &&& b.profile_id is None
    &&& b.money.amount == amount
    &&& b.money.currency@ == item.request.currency@
    &&& b.additional_property@ == transaction_metadata(
        opt_view(item.request.metadata),
        item.connector_request_reference_id@,
    )
    &&& match item.address.shipping {
        Some(_) => b.shipping matches Some(s) && opt_view(s.ship_country) == shipping_country(
            item.address,
        ) && opt_view(s.ship_zip) == shipping_zip(item.address),
        None => b.shipping is None,
    }
}

/// `r` is the outcome of building the purchase body for authorization `item`
/// with `amount`: the card's (or vaulted card's) data and the common parts,
/// or the first error in that data; any other payment method is turned down.
pub open spec fn is_purchase_result(
    r: Result<TransactionPurchaseRequest, ConnectorError>,
    item: RouterData<PaymentsAuthorizeData, PaymentsResponseData>,
    amount: String,
) -> bool {
    match item.request.payment_method_data {
        PaymentMethodData::Card(card) => match card_data_error(
            card.card_exp_month@,
            card.card_exp_year@,
            item.address,
        ) {
            Some(e) => r == Err::<TransactionPurchaseRequest, ConnectorError>(e),
            None => r matches Ok(b) && b.payment_data matches Some(p) && is_card_data(
                p,
                card,
                item.address,
            ) && is_purchase_frame(b, item, amount),
        },
        PaymentMethodData::VaultDataCard(card) => match card_data_error(
            card.card_exp_month@,
            card.card_exp_year@,
            item.address,
        ) {
            Some(e) => r == Err::<TransactionPurchaseRequest, ConnectorError>(e),
            None => r matches Ok(b) && b.payment_data matches Some(p) && is_vault_card_data(
                p,
                card,
                item.address,
            ) && is_purchase_frame(b, item, amount),
        },
        _ => r matches Err(e) && is_unimplemented_payment_method(e),
    }
}

impl TransactionPurchaseRequest {
    /// The purchase body for an authorization, with the amount already in the
    /// currency's major unit. Only cards and vaulted cards are taken.
    pub fn try_from(item: &RouterData<PaymentsAuthorizeData, PaymentsResponseData>, amount: String) -> (r:
        Result<TransactionPurchaseRequest, ConnectorError>)
        ensures
            is_purchase_result(r, *item, amount),
    {
        let payment_data = match &item.request.payment_method_data {
            PaymentMethodData::Card(card) => Some(AxiaPaymentMethodData::try_from_card(item, card)?),
            PaymentMethodData::VaultDataCard(vault_card) => Some(
                AxiaPaymentMethodData::try_from_vault_card(item, vault_card)?,
            ),
            _ => None,
        };
        if payment_data.is_none() {
            return Err(
                ConnectorError::NotImplemented(
                    get_unimplemented_payment_method_error_message(CONNECTOR_ID),
                ),
            );
        }
        let order_id = item.connector_request_reference_id.clone();
        let additional_property = get_transaction_metadata(
            clone_opt(&item.request.metadata),
            order_id,
        );
        let money = Money { amount, currency: item.request.currency.clone() };
        let shipping = if item.address.get_optional_shipping() {
            Some(
                AxiaShippingAddress {
                    ship_country: item.address.get_optional_shipping_country(),
                    ship_zip: item.address.get_optional_shipping_zip(),
                },
            )
        } else {
            None
        };
        Ok(
            TransactionPurchaseRequest {
                profile_id: None,
                payment_data,
                money,
                additional_property,
                shipping,
            },
        )
    }
}

} // verus!
