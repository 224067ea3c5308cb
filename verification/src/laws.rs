//! Properties that hold across the connector's functions.
use vstd::prelude::*;

use crate::codes::{Code, PhardCode};
use crate::connector::request_headers_of;
use crate::consts::{APPLICATION_JSON, CONTENT_TYPE};
use crate::json::json_object_entries;
use crate::string_map::{keys_distinct, pairs_map};
use crate::transformers::{
    is_payments_outcome, is_purchase_result, is_refund_outcome, payment_status_of,
    prefixed_entries, AxiaPaymentMethodData, CustomerRequest, refund_status_of, transaction_metadata, TransactionPurchaseRequest,
    TransactionResponse,
};
use crate::types::{
    opt_view, AttemptStatus, ConnectorAuthType, ConnectorCustomerData, ConnectorError,
    PaymentMethodData, PaymentsAuthorizeData,
    PaymentsResponseData, RefundStatus, RefundsResponseData, RouterData, RouterErrorResponse,
};
use crate::utils::{
    decimal_value, expiry_mmyy, expiry_year_two_digits, is_mmyy, is_month, lemma_expiry_mmyy_form,
    parse_u8_spec, two_digit_text,
};
use crate::vault_session::{
    is_vault_session_result, vault_connector_named, ApiErrorResponse, Env, VaultConnectors,
    VaultSessionDetails,
};
use vstd::utf8::{encode_utf8, is_ascii_chars};

verus! {

/// A transaction is charged exactly when its general code is `AUTH` and its
/// processor code is `SUCCESS`: the processor approved it.
pub proof fn law_charged_iff_approved(code: Code, phard_code: Option<PhardCode>)
    ensures
        payment_status_of(code, phard_code) == AttemptStatus::Charged <==> (code == Code::Auth
            && phard_code == Some(PhardCode::Success)),
{
}

/// A transaction is voided exactly when its general code is `AUTH` and its
/// processor code is `ALREADY_REVERSED`; every other code pair is a failure.
pub proof fn law_voided_iff_reversed(code: Code, phard_code: Option<PhardCode>)
    ensures
        payment_status_of(code, phard_code) == AttemptStatus::Voided <==> (code == Code::Auth
            && phard_code == Some(PhardCode::AlreadyReversed)),
        payment_status_of(code, phard_code) == AttemptStatus::Charged || payment_status_of(
            code,
            phard_code,
        ) == AttemptStatus::Voided || payment_status_of(code, phard_code)
            == AttemptStatus::Failure,
{
}

/// A refund succeeds exactly when the same codes would charge a payment.
pub proof fn law_refund_success_iff_charged(code: Code, phard_code: Option<PhardCode>)
    ensures
        refund_status_of(code, phard_code) == RefundStatus::Success <==> payment_status_of(
            code,
            phard_code,
        ) == AttemptStatus::Charged,
        refund_status_of(code, phard_code) == RefundStatus::Success || refund_status_of(
            code,
            phard_code,
        ) == RefundStatus::Failure,
{
}

/// A payment flow reports an error exactly when the transaction failed.
pub proof fn law_payment_error_iff_failure(
    outcome: Result<PaymentsResponseData, RouterErrorResponse>,
    response: TransactionResponse,
    http_code: u16,
)
    requires
        is_payments_outcome(outcome, response, http_code),
    ensures
        outcome is Err <==> payment_status_of(response.code, response.phard_code)
            == AttemptStatus::Failure,
{
}

/// A refund flow reports an error exactly when the refund failed, and
/// otherwise reports the refund as succeeded.
pub proof fn law_refund_error_iff_failure(
    outcome: Result<RefundsResponseData, RouterErrorResponse>,
    response: TransactionResponse,
    http_code: u16,
)
    requires
        is_refund_outcome(outcome, response, http_code),
    ensures
        outcome is Err <==> refund_status_of(response.code, response.phard_code)
            == RefundStatus::Failure,
        outcome matches Ok(p) ==> p.refund_status == RefundStatus::Success,
{
}

/// When a transaction fails as a payment it fails as a refund too, and both
/// flows report the same error code, message, HTTP status and transaction.
pub proof fn law_failed_payment_fails_refund(
    payment: Result<PaymentsResponseData, RouterErrorResponse>,
    refund: Result<RefundsResponseData, RouterErrorResponse>,
    response: TransactionResponse,
    http_code: u16,
)
    requires
        is_payments_outcome(payment, response, http_code),
        is_refund_outcome(refund, response, http_code),
        payment is Err,
    ensures
        refund is Err,
        payment->Err_0.code@ == refund->Err_0.code@,
        payment->Err_0.message@ == refund->Err_0.message@,
        payment->Err_0.status_code == refund->Err_0.status_code,
        payment->Err_0.connector_transaction_id->0@ == refund->Err_0.connector_transaction_id->0@,
{
}

/// Every request the connector sends begins with the JSON content-type
/// header, shown as it is, followed by the two credential headers, masked;
/// requests can be built exactly for body-key credentials.
pub proof fn law_request_headers(auth: ConnectorAuthType)
    ensures
        request_headers_of(auth) is Some <==> auth is BodyKey,
        request_headers_of(auth) matches Some(h) ==> h.len() == 3 && h[0] == (
            CONTENT_TYPE@,
            false,
            APPLICATION_JSON@,
        ) && h[1].1 && h[2].1,
{
}

/// A purchase body is built only for cards and vaulted cards, and always
/// carries its payment method.
pub proof fn law_purchase_only_for_cards(
    r: Result<TransactionPurchaseRequest, ConnectorError>,
    item: RouterData<PaymentsAuthorizeData, PaymentsResponseData>,
    amount: String,
)
    requires
        is_purchase_result(r, item, amount),
    ensures
        r is Ok ==> (item.request.payment_method_data is Card
            || item.request.payment_method_data is VaultDataCard),
        r matches Ok(b) ==> b.payment_data is Some,
{
}


/// Every key of a list of pairs is a key of its map, and its map has no
/// other keys.
proof fn lemma_pairs_map_keys(s: Seq<(Seq<char>, Seq<char>)>)
    ensures
        forall|k: Seq<char>|
            pairs_map(s).contains_key(k) <==> exists|i: int| 0 <= i < s.len() && s[i].0 == k,
    decreases s.len(),
{
    if s.len() > 0 {
        let t = s.drop_last();
        lemma_pairs_map_keys(t);
        assert forall|k: Seq<char>|
            pairs_map(s).contains_key(k) <==> exists|i: int| 0 <= i < s.len() && s[i].0 == k by {
            if pairs_map(s).contains_key(k) && k != s.last().0 {
                assert(pairs_map(t).contains_key(k));
                let i = choose|i: int| 0 <= i < t.len() && t[i].0 == k;
                assert(s[i].0 == k);
            }
            if exists|i: int| 0 <= i < s.len() && s[i].0 == k {
                let i = choose|i: int| 0 <= i < s.len() && s[i].0 == k;
                if i < t.len() {
                    assert(t[i].0 == k);
                    assert(pairs_map(t).contains_key(k));
                }
            }
            if k == s.last().0 {
                assert(s[s.len() - 1].0 == k);
            }
        }
    }
}

/// A key's value in the map of a list of pairs is the value of its last
/// occurrence.
proof fn lemma_pairs_map_last(s: Seq<(Seq<char>, Seq<char>)>, i: int)
    requires
        0 <= i < s.len(),
        forall|j: int| i < j < s.len() ==> s[j].0 != s[i].0,
    ensures
        pairs_map(s).contains_key(s[i].0),
        pairs_map(s)[s[i].0] == s[i].1,
    decreases s.len(),
{
    if i < s.len() - 1 {
        let t = s.drop_last();
        assert(t[i] == s[i]);
        lemma_pairs_map_last(t, i);
    }
}

/// A prefixed key determines the key it was made from.
proof fn lemma_prefix_injective(p: Seq<char>, a: Seq<char>, b: Seq<char>)
    requires
        p + a == p + b,
    ensures
        a == b,
{
    assert(a =~= (p + a).subrange(p.len() as int, (p + a).len() as int));
    assert(b =~= (p + b).subrange(p.len() as int, (p + b).len() as int));
}

/// The order identifier's key is always among the extra properties of a
/// purchase.
pub proof fn law_metadata_has_order_key(metadata: Option<Seq<char>>, order_id: Seq<char>)
    ensures
        transaction_metadata(metadata, order_id).contains_key("external_order_id"@),
{
    let first = seq![("external_order_id"@, order_id)];
    let all = match metadata {
        Some(text) => match json_object_entries(text) {
            Some(entries) => first + prefixed_entries(entries),
            None => first,
        },
        None => first,
    };
    assert(transaction_metadata(metadata, order_id) == pairs_map(all));
    lemma_pairs_map_keys(all);
    assert(all[0].0 == "external_order_id"@);
}

/// Unless the merchant's metadata has its own `order_id` entry, the
/// `external_order_id` property is the order identifier.
pub proof fn law_metadata_order_id(metadata: Option<Seq<char>>, order_id: Seq<char>)
    requires
        metadata matches Some(text) ==> (json_object_entries(text) matches Some(entries) ==> (
        forall|i: int| 0 <= i < entries.len() ==> #[trigger] entries[i].0 != "order_id"@)),
    ensures
        transaction_metadata(metadata, order_id)["external_order_id"@] == order_id,
{
    let first = seq![("external_order_id"@, order_id)];
    let entries = match metadata {
        Some(text) => match json_object_entries(text) {
            Some(entries) => entries,
            None => Seq::empty(),
        },
        None => Seq::empty(),
    };
    let all = first + prefixed_entries(entries);
    assert(transaction_metadata(metadata, order_id) == pairs_map(all)) by {
        if !(metadata matches Some(text) && json_object_entries(text) is Some) {
            assert(all =~= first);
        }
    }
    {
        assert forall|j: int| 0 < j < all.len() implies #[trigger] all[j].0 != all[0].0 by {
            assert(all[j].0 == "external_"@ + entries[j - 1].0);
            if all[j].0 == all[0].0 {
                reveal_strlit("external_order_id");
                reveal_strlit("external_");
                reveal_strlit("order_id");
                assert("external_order_id"@ =~= "external_"@ + "order_id"@);
                lemma_prefix_injective("external_"@, entries[j - 1].0, "order_id"@);
            }
        }
        lemma_pairs_map_last(all, 0);
    }
}

/// Each entry of the merchant's metadata object is an extra property of the
/// purchase under its key prefixed with `external_`, and the properties are
/// exactly these and `external_order_id`.
pub proof fn law_metadata_entries(
    text: Seq<char>,
    order_id: Seq<char>,
    entries: Seq<(Seq<char>, Seq<char>)>,
)
    requires
        json_object_entries(text) == Some(entries),
        keys_distinct(entries),
    ensures
        forall|i: int|
            0 <= i < entries.len() ==> transaction_metadata(Some(text), order_id)["external_"@
                + #[trigger] entries[i].0] == entries[i].1,
        forall|k: Seq<char>|
            transaction_metadata(Some(text), order_id).contains_key(k) <==> (k
                == "external_order_id"@ || exists|i: int|
                0 <= i < entries.len() && k == "external_"@ + #[trigger] entries[i].0),
{
    let first = seq![("external_order_id"@, order_id)];
    let all = first + prefixed_entries(entries);
    assert forall|i: int| 0 <= i < entries.len() implies transaction_metadata(
        Some(text),
        order_id,
    )["external_"@ + #[trigger] entries[i].0] == entries[i].1 by {
        assert(all[i + 1] == ("external_"@ + entries[i].0, entries[i].1));
        assert forall|j: int| i + 1 < j < all.len() implies #[trigger] all[j].0 != all[i + 1].0 by {
            assert(all[j].0 == "external_"@ + entries[j - 1].0);
            if all[j].0 == all[i + 1].0 {
                lemma_prefix_injective("external_"@, entries[j - 1].0, entries[i].0);
            }
        }
        lemma_pairs_map_last(all, i + 1);
    }
    lemma_pairs_map_keys(all);
    assert forall|k: Seq<char>|
        transaction_metadata(Some(text), order_id).contains_key(k) <==> (k
            == "external_order_id"@ || exists|i: int|
            0 <= i < entries.len() && k == "external_"@ + #[trigger] entries[i].0) by {
        if exists|j: int| 0 <= j < all.len() && all[j].0 == k {
            let j = choose|j: int| 0 <= j < all.len() && all[j].0 == k;
            if j > 0 {
                assert(all[j].0 == "external_"@ + entries[j - 1].0);
            }
        }
        if exists|i: int| 0 <= i < entries.len() && k == "external_"@ + #[trigger] entries[i].0 {
            let i = choose|i: int| 0 <= i < entries.len() && k == "external_"@ + #[trigger] entries[i].0;
            assert(all[i + 1].0 == k);
        }
        if k == "external_order_id"@ {
            assert(all[0].0 == k);
        }
    }
}

/// A card expiry date that the connector sends is always in MMYY form: four
/// decimal digits whose first two write a month from `01` to `12`. Every
/// card or vaulted card whose purchase body is built carries such a date.
pub proof fn law_expiry_date_is_mmyy(
    r: Result<TransactionPurchaseRequest, ConnectorError>,
    item: RouterData<PaymentsAuthorizeData, PaymentsResponseData>,
    amount: String,
)
    requires
        is_purchase_result(r, item, amount),
    ensures
        r matches Ok(b) ==> (b.payment_data matches Some(p) && match p {
            AxiaPaymentMethodData::Card(d) => d.account_data matches Some(a) && is_mmyy(
                a.expdate@,
            ),
            AxiaPaymentMethodData::VaultCard(d) => d.account_data matches Some(a) && is_mmyy(
                a.expdate@,
            ),
        }),
{
    match item.request.payment_method_data {
        PaymentMethodData::Card(card) => {
            lemma_expiry_mmyy_form(card.card_exp_month@, card.card_exp_year@);
        },
        PaymentMethodData::VaultDataCard(card) => {
            lemma_expiry_mmyy_form(card.card_exp_month@, card.card_exp_year@);
        },
        _ => {},
    }
}

/// An expiry year refused for MMYY form is refused whatever the month: the
/// year is looked at first.
pub proof fn law_expiry_year_checked_first(month: Seq<char>, year: Seq<char>)
    requires
        expiry_year_two_digits(year) is None,
    ensures
        expiry_mmyy(month, year) == Err::<Seq<char>, ConnectorError>(
            ConnectorError::RequestEncodingFailed,
        ),
{
}

/// A month written with two digits reads back as the same month.
pub proof fn law_month_text_round_trip(m: u8)
    requires
        is_month(m),
    ensures
        parse_u8_spec(encode_utf8(two_digit_text(m))) == Some(m),
{
    let t = two_digit_text(m);
    assert(is_ascii_chars(t));
    vstd::utf8::is_ascii_chars_encode_utf8(t);
    let b = encode_utf8(t);
    assert(b.len() == 2);
    assert(b[0] == (48 + m / 10) as u8);
    assert(b[1] == (48 + m % 10) as u8);
    assert(b.drop_last().drop_last() =~= Seq::<u8>::empty());
    assert(decimal_value(b) == m) by {
        reveal_with_fuel(decimal_value, 3);
    }
}

/// A vault session is produced only for the VGS vault with signature-key
/// credentials, and its SDK environment is `live` exactly in production.
pub proof fn law_vault_session_only_for_vgs(
    r: Result<Option<VaultSessionDetails>, ApiErrorResponse>,
    env: Env,
    connector_name: Seq<char>,
    details: Option<ConnectorAuthType>,
)
    requires
        is_vault_session_result(r, env, connector_name, details),
    ensures
        r matches Ok(Some(_)) ==> vault_connector_named(connector_name) == Some(
            VaultConnectors::Vgs,
        ) && details matches Some(ConnectorAuthType::SignatureKey { .. }),
        r matches Ok(Some(VaultSessionDetails::Vgs(d))) ==> (d.sdk_env@ == "live"@ <==> env
            == Env::Production),
        r is Err <==> (vault_connector_named(connector_name) is None || details is None),
{
    reveal_strlit("live");
    reveal_strlit("sandbox");
    assert("live"@.len() != "sandbox"@.len());
}

/// The customer-creation body carries the customer's email as its email,
/// whatever else the customer data holds, and likewise the description as
/// the notes, the phone as the mobile phone and the name as the display name;
/// every other field is left out.
pub proof fn law_customer_body_carries_customer_data(d: ConnectorCustomerData, c: CustomerRequest)
    requires
        c.is_built_from(d),
    ensures
        opt_view(c.email) == opt_view(d.email),
        opt_view(c.notes) == opt_view(d.description),
        opt_view(c.phone_mobile) == opt_view(d.phone),
        opt_view(c.display_name) == opt_view(d.name),
        c.profile_id is None && c.website is None && c.business_id is None,
        c.name_company is None && c.name_prefix is None && c.name_first is None,
        c.name_middle is None && c.name_last is None && c.name_suffix is None,
        c.phone_work is None && c.phone_home is None && c.phone_fax is None,
        c.accounting_id is None && c.flags is None,
{
}

/// Two customers with the same email get bodies with the same email, whatever
/// their other data: the email never depends on the phone, name or
/// description.
pub proof fn law_customer_email_independent(
    d1: ConnectorCustomerData,
    c1: CustomerRequest,
    d2: ConnectorCustomerData,
    c2: CustomerRequest,
)
    requires
        c1.is_built_from(d1),
        c2.is_built_from(d2),
        opt_view(d1.email) == opt_view(d2.email),
    ensures
        opt_view(c1.email) == opt_view(c2.email),
        opt_view(c1.email) == opt_view(d1.email),
{
}

} // verus!
