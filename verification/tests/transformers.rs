use axia_connector::codes::{Code, PhardCode};
use axia_connector::transformers::{
    get_axia_payments_response_data, get_transaction_metadata,
    transaction_metadata_from_entries, AxiaAuthType, AxiaCustomerResponse,
    AxiaPaymentMethodData, AxiaRouterData, CustomerRequest, RefundRequest,
    TransactionPurchaseRequest, TransactionResponse,
};
use axia_connector::types::{
    Address, AddressDetails, AttemptStatus, Card, ConnectorAuthType, ConnectorCustomerData,
    ConnectorError, ExternalVaultCard, PaymentAddress, PaymentMethodData, PaymentsAuthorizeData,
    PaymentsResponseData, RefundStatus, RefundsData, RefundsResponseData, ResponseId,
    ResponseRouterData, RouterData, RouterErrorResponse,
};

fn body_key() -> ConnectorAuthType {
    ConnectorAuthType::BodyKey { api_key: "key-id".to_string(), key1: "secret".to_string() }
}

fn shipping(country: Option<&str>, zip: Option<&str>) -> PaymentAddress {
    PaymentAddress {
        shipping: Some(Address {
            address: Some(AddressDetails {
                country: country.map(|c| c.to_string()),
                zip: zip.map(|z| z.to_string()),
            }),
        }),
    }
}

fn router_data<Req, Resp>(request: Req, address: PaymentAddress) -> RouterData<Req, Resp> {
    RouterData {
        status: AttemptStatus::Pending,
        connector_auth_type: body_key(),
        connector_request_reference_id: "order-42".to_string(),
        address,
        request,
        response: Err(RouterErrorResponse {
            code: String::new(),
            message: String::new(),
            reason: None,
            status_code: 0,
            attempt_status: None,
            connector_transaction_id: None,
        }),
    }
}

fn card(month: &str, year: &str) -> Card {
    Card {
        card_number: "4111111111111111".to_string(),
        card_exp_month: month.to_string(),
        card_exp_year: year.to_string(),
        card_cvc: "123".to_string(),
    }
}

fn vault_card(month: &str, year: &str) -> ExternalVaultCard {
    ExternalVaultCard {
        card_number: "tok_4111".to_string(),
        card_exp_month: month.to_string(),
        card_exp_year: year.to_string(),
        card_cvc: "tok_cvc".to_string(),
    }
}

fn authorize(
    pmd: PaymentMethodData,
    address: PaymentAddress,
    metadata: Option<&str>,
) -> RouterData<PaymentsAuthorizeData, PaymentsResponseData> {
    router_data(
        PaymentsAuthorizeData {
            payment_method_data: pmd,
            minor_amount: 1050,
            currency: "USD".to_string(),
            metadata: metadata.map(|m| m.to_string()),
        },
        address,
    )
}

fn transaction(code: Code, phard: Option<PhardCode>, verbiage: Option<&str>) -> TransactionResponse {
    TransactionResponse {
        code,
        phard_code: phard,
        verbiage: verbiage.map(|v| v.to_string()),
        ttid: "ttid-9".to_string(),
        ..Default::default()
    }
}

fn sorted_entries(m: &axia_connector::string_map::StringMap) -> Vec<(String, String)> {
    let mut v = m.entries().clone();
    v.sort();
    v
}

#[test]
fn auth_type_reads_body_key() {
    let a = AxiaAuthType::try_from(&body_key()).unwrap();
    assert_eq!(a.api_key, "key-id");
    assert_eq!(a.key1, "secret");
}

#[test]
fn auth_type_refuses_other_credentials() {
    let r = AxiaAuthType::try_from(&ConnectorAuthType::HeaderKey { api_key: "k".to_string() });
    assert!(matches!(r, Err(ConnectorError::FailedToObtainAuthType)));
    let r = AxiaAuthType::try_from(&ConnectorAuthType::NoKey);
    assert!(matches!(r, Err(ConnectorError::FailedToObtainAuthType)));
}

#[test]
fn router_data_carries_amount() {
    let d = AxiaRouterData::from(("10.50".to_string(), 7u8));
    assert_eq!(d.amount, "10.50");
    assert_eq!(d.router_data, 7);
}

#[test]
fn customer_request_takes_four_fields() {
    let req = router_data::<ConnectorCustomerData, PaymentsResponseData>(
        ConnectorCustomerData {
            description: Some("vip".to_string()),
            email: Some("a@b.c".to_string()),
            phone: Some("555".to_string()),
            name: Some("Ann".to_string()),
        },
        PaymentAddress { shipping: None },
    );
    let c = CustomerRequest::try_from(&req).unwrap();
    assert_eq!(c.notes.as_deref(), Some("vip"));
    assert_eq!(c.email.as_deref(), Some("a@b.c"));
    assert_eq!(c.phone_mobile.as_deref(), Some("555"));
    assert_eq!(c.display_name.as_deref(), Some("Ann"));
    assert_eq!(c.profile_id, None);
    assert_eq!(c.name_first, None);
    assert_eq!(c.flags, None);
}

#[test]
fn metadata_without_merchant_data_is_the_order_id() {
    let m = get_transaction_metadata(None, "ord-1".to_string());
    assert_eq!(sorted_entries(&m), vec![("external_order_id".to_string(), "ord-1".to_string())]);
    assert_eq!(m.len(), 1);
}

#[test]
fn metadata_entries_are_prefixed_json_texts() {
    let m = get_transaction_metadata(
        Some(r#"{"a": "x", "b": 2, "c": {"d": true}}"#.to_string()),
        "ord-1".to_string(),
    );
    assert_eq!(
        sorted_entries(&m),
        vec![
            ("external_a".to_string(), "\"x\"".to_string()),
            ("external_b".to_string(), "2".to_string()),
            ("external_c".to_string(), "{\"d\":true}".to_string()),
            ("external_order_id".to_string(), "ord-1".to_string()),
        ]
    );
}

#[test]
fn metadata_order_id_entry_overrides() {
    let m = get_transaction_metadata(Some(r#"{"order_id": "m"}"#.to_string()), "ord-1".to_string());
    assert_eq!(sorted_entries(&m), vec![("external_order_id".to_string(), "\"m\"".to_string())]);
}

#[test]
fn metadata_that_is_not_an_object_is_ignored() {
    for text in ["not json", "[1, 2]", "3", "{\"a\": 1} extra"] {
        let m = get_transaction_metadata(Some(text.to_string()), "ord-1".to_string());
        assert_eq!(
            sorted_entries(&m),
            vec![("external_order_id".to_string(), "ord-1".to_string())]
        );
    }
}

#[test]
fn card_purchase_body() {
    let item = authorize(
        PaymentMethodData::Card(card("12", "2030")),
        shipping(Some("US"), Some("94105")),
        Some(r#"{"k": "v"}"#),
    );
    let b = TransactionPurchaseRequest::try_from(&item, "10.50".to_string()).unwrap();
    assert_eq!(b.profile_id, None);
    assert_eq!(b.money.amount, "10.50");
    assert_eq!(b.money.currency, "USD");
    match b.payment_data {
        Some(AxiaPaymentMethodData::Card(d)) => {
            let v = d.verification.unwrap();
            assert_eq!(v.cv, "123");
            assert_eq!(v.zip, "94105");
            let a = d.account_data.unwrap();
            assert_eq!(a.account, "4111111111111111");
            assert_eq!(a.expdate, "1230");
        }
        _ => panic!("expected card data"),
    }
    let s = b.shipping.unwrap();
    assert_eq!(s.ship_country.as_deref(), Some("US"));
    assert_eq!(s.ship_zip.as_deref(), Some("94105"));
    assert_eq!(
        sorted_entries(&b.additional_property),
        vec![
            ("external_k".to_string(), "\"v\"".to_string()),
            ("external_order_id".to_string(), "order-42".to_string()),
        ]
    );
}

#[test]
fn card_purchase_needs_shipping_zip() {
    let item = authorize(PaymentMethodData::Card(card("12", "2030")), shipping(Some("US"), None), None);
    let r = TransactionPurchaseRequest::try_from(&item, "1.00".to_string());
    assert!(matches!(
        r,
        Err(ConnectorError::MissingRequiredField { field_name: "shipping.address.zip" })
    ));
    let item = authorize(PaymentMethodData::Card(card("12", "2030")), PaymentAddress { shipping: None }, None);
    let r = TransactionPurchaseRequest::try_from(&item, "1.00".to_string());
    assert!(matches!(r, Err(ConnectorError::MissingRequiredField { .. })));
}

#[test]
fn card_purchase_needs_two_year_bytes() {
    let item = authorize(PaymentMethodData::Card(card("12", "5")), shipping(None, Some("1")), None);
    let r = TransactionPurchaseRequest::try_from(&item, "1.00".to_string());
    assert!(matches!(r, Err(ConnectorError::RequestEncodingFailed)));
    let item = authorize(PaymentMethodData::Card(card("12", "é2")), shipping(None, Some("1")), None);
    let r = TransactionPurchaseRequest::try_from(&item, "1.00".to_string());
    assert!(matches!(r, Err(ConnectorError::RequestEncodingFailed)));
}

#[test]
fn vault_card_purchase_body() {
    let item = authorize(
        PaymentMethodData::VaultDataCard(vault_card("7", "2031")),
        shipping(None, Some("10001")),
        None,
    );
    let b = TransactionPurchaseRequest::try_from(&item, "3.00".to_string()).unwrap();
    match b.payment_data {
        Some(AxiaPaymentMethodData::VaultCard(d)) => {
            let a = d.account_data.unwrap();
            assert_eq!(a.account, "tok_4111");
            assert_eq!(a.expdate, "0731");
            assert_eq!(d.verification.unwrap().cv, "tok_cvc");
        }
        _ => panic!("expected vault card data"),
    }
    assert_eq!(b.shipping.unwrap().ship_country, None);
}

#[test]
fn vault_card_year_must_end_in_two_digits() {
    for year in ["1", "7", "", "ab", "20ab", "2é"] {
        let item = authorize(
            PaymentMethodData::VaultDataCard(vault_card("11", year)),
            shipping(None, Some("1")),
            None,
        );
        let r = TransactionPurchaseRequest::try_from(&item, "3.00".to_string());
        assert!(matches!(r, Err(ConnectorError::RequestEncodingFailed)), "year {:?}", year);
    }
}

#[test]
fn vault_card_month_is_written_with_two_digits() {
    let item = authorize(
        PaymentMethodData::VaultDataCard(vault_card("+9", "2031")),
        shipping(None, Some("1")),
        None,
    );
    let b = TransactionPurchaseRequest::try_from(&item, "3.00".to_string()).unwrap();
    match b.payment_data {
        Some(AxiaPaymentMethodData::VaultCard(d)) => assert_eq!(d.account_data.unwrap().expdate, "0931"),
        _ => panic!("expected vault card data"),
    }
}

#[test]
fn card_month_is_written_with_two_digits() {
    let item = authorize(PaymentMethodData::Card(card("3", "2030")), shipping(None, Some("1")), None);
    let b = TransactionPurchaseRequest::try_from(&item, "3.00".to_string()).unwrap();
    match b.payment_data {
        Some(AxiaPaymentMethodData::Card(d)) => assert_eq!(d.account_data.unwrap().expdate, "0330"),
        _ => panic!("expected card data"),
    }
    let item = authorize(PaymentMethodData::Card(card("13", "2030")), shipping(None, Some("1")), None);
    let r = TransactionPurchaseRequest::try_from(&item, "3.00".to_string());
    assert!(matches!(
        r,
        Err(ConnectorError::InvalidDataFormat { field_name: "payment_method_data.card.card_exp_month" })
    ));
}

#[test]
fn vault_card_month_must_be_a_month() {
    for month in ["13", "0", "ab", "", "256", "-1"] {
        let item = authorize(
            PaymentMethodData::VaultDataCard(vault_card(month, "2031")),
            shipping(None, Some("1")),
            None,
        );
        let r = TransactionPurchaseRequest::try_from(&item, "3.00".to_string());
        assert!(matches!(
            r,
            Err(ConnectorError::InvalidDataFormat {
                field_name: "payment_method_data.card.card_exp_month"
            })
        ));
    }
}

#[test]
fn other_payment_methods_are_not_implemented() {
    let item = authorize(PaymentMethodData::Wallet, shipping(None, Some("1")), None);
    let r = TransactionPurchaseRequest::try_from(&item, "3.00".to_string());
    match r {
        Err(ConnectorError::NotImplemented(m)) => assert_eq!(m, "Selected payment method through axia"),
        _ => panic!("expected not implemented"),
    }
}

#[test]
fn refund_body() {
    let item = router_data::<RefundsData, RefundsResponseData>(
        RefundsData {
            refund_id: "ref-1".to_string(),
            connector_transaction_id: "ttid-1".to_string(),
            minor_refund_amount: 500,
            currency: "EUR".to_string(),
        },
        PaymentAddress { shipping: None },
    );
    let b = RefundRequest::try_from(&item, "5.00".to_string()).unwrap();
    assert_eq!(b.money.amount, "5.00");
    assert_eq!(b.money.currency, "EUR");
    assert_eq!(b.profile_id, None);
    assert_eq!(
        sorted_entries(&b.additional_property),
        vec![("external_refund_id".to_string(), "ref-1".to_string())]
    );
}

#[test]
fn approved_purchase_reports_transaction() {
    let data = router_data::<PaymentsAuthorizeData, PaymentsResponseData>(
        PaymentsAuthorizeData {
            payment_method_data: PaymentMethodData::Wallet,
            minor_amount: 1,
            currency: "USD".to_string(),
            metadata: None,
        },
        PaymentAddress { shipping: None },
    );
    let r = RouterData::try_from_transaction_response(ResponseRouterData {
        response: transaction(Code::Auth, Some(PhardCode::Success), None),
        data,
        http_code: 200,
    })
    .unwrap();
    assert_eq!(r.status, AttemptStatus::Charged);
    assert_eq!(r.connector_request_reference_id, "order-42");
    assert_eq!(
        r.response,
        Ok(PaymentsResponseData::TransactionResponse {
            resource_id: ResponseId::ConnectorTransactionId("ttid-9".to_string()),
            connector_response_reference_id: Some("ttid-9".to_string()),
        })
    );
}

#[test]
fn declined_purchase_reports_processor_code() {
    let data = router_data::<(), PaymentsResponseData>((), PaymentAddress { shipping: None });
    let r = RouterData::try_from_transaction_response(ResponseRouterData {
        response: transaction(Code::Deny, Some(PhardCode::InsufficientFunds), Some("NSF")),
        data,
        http_code: 402,
    })
    .unwrap();
    assert_eq!(r.status, AttemptStatus::Failure);
    assert_eq!(
        r.response,
        Err(RouterErrorResponse {
            code: "InsufficientFunds".to_string(),
            message: "NSF".to_string(),
            reason: None,
            status_code: 402,
            attempt_status: None,
            connector_transaction_id: Some("ttid-9".to_string()),
        })
    );
}

#[test]
fn declined_purchase_without_details() {
    let r = get_axia_payments_response_data(&transaction(Code::Deny, None, None), 500, "t".to_string());
    assert_eq!(
        r,
        Err(RouterErrorResponse {
            code: "Deny".to_string(),
            message: "No error message".to_string(),
            reason: None,
            status_code: 500,
            attempt_status: None,
            connector_transaction_id: Some("t".to_string()),
        })
    );
}

#[test]
fn reversed_transaction_is_not_an_error() {
    let data = router_data::<(), PaymentsResponseData>((), PaymentAddress { shipping: None });
    let r = RouterData::try_from_transaction_response(ResponseRouterData {
        response: transaction(Code::Auth, Some(PhardCode::AlreadyReversed), None),
        data,
        http_code: 200,
    })
    .unwrap();
    assert_eq!(r.status, AttemptStatus::Voided);
    assert!(r.response.is_ok());
}

#[test]
fn created_customer_is_recorded() {
    let data = router_data::<(), PaymentsResponseData>((), PaymentAddress { shipping: None });
    let r = RouterData::try_from_customer_response(ResponseRouterData {
        response: AxiaCustomerResponse { id: Some("cus_1".to_string()), ..Default::default() },
        data,
        http_code: 200,
    })
    .unwrap();
    assert_eq!(r.status, AttemptStatus::Pending);
    assert_eq!(
        r.response,
        Ok(PaymentsResponseData::ConnectorCustomerResponse { connector_customer_id: "cus_1".to_string() })
    );
}

#[test]
fn refund_outcomes() {
    let mk = || {
        router_data::<RefundsData, RefundsResponseData>(
            RefundsData {
                refund_id: "ref-1".to_string(),
                connector_transaction_id: "ttid-1".to_string(),
                minor_refund_amount: 500,
                currency: "EUR".to_string(),
            },
            PaymentAddress { shipping: None },
        )
    };
    let ok = RouterData::try_from_refund_response(ResponseRouterData {
        response: transaction(Code::Auth, Some(PhardCode::Success), None),
        data: mk(),
        http_code: 200,
    })
    .unwrap();
    assert_eq!(ok.status, AttemptStatus::Pending);
    assert_eq!(
        ok.response,
        Ok(RefundsResponseData { connector_refund_id: "ttid-9".to_string(), refund_status: RefundStatus::Success })
    );
    let failed = RouterData::try_from_refund_response(ResponseRouterData {
        response: transaction(Code::Auth, Some(PhardCode::AlreadyReversed), Some("done")),
        data: mk(),
        http_code: 409,
    })
    .unwrap();
    assert_eq!(
        failed.response,
        Err(RouterErrorResponse {
            code: "AlreadyReversed".to_string(),
            message: "done".to_string(),
            reason: None,
            status_code: 409,
            attempt_status: None,
            connector_transaction_id: Some("ttid-9".to_string()),
        })
    );
}

#[test]
fn failed_payment_and_refund_report_the_same_error() {
    let payment = RouterData::try_from_transaction_response(ResponseRouterData {
        response: transaction(Code::Deny, Some(PhardCode::CardExpired), Some("expired")),
        data: router_data::<(), PaymentsResponseData>((), PaymentAddress { shipping: None }),
        http_code: 402,
    })
    .unwrap();
    let refund = RouterData::try_from_refund_response(ResponseRouterData {
        response: transaction(Code::Deny, Some(PhardCode::CardExpired), Some("expired")),
        data: router_data::<RefundsData, RefundsResponseData>(
            RefundsData {
                refund_id: "r".to_string(),
                connector_transaction_id: "t".to_string(),
                minor_refund_amount: 1,
                currency: "USD".to_string(),
            },
            PaymentAddress { shipping: None },
        ),
        http_code: 402,
    })
    .unwrap();
    let p = payment.response.unwrap_err();
    let r = refund.response.unwrap_err();
    assert_eq!(p, r);
    assert_eq!(p.code, "CardExpired");
}

#[test]
fn distinct_processor_codes_give_distinct_error_codes() {
    let a = get_axia_payments_response_data(
        &transaction(Code::Deny, Some(PhardCode::InsufficientFunds), None),
        402,
        "t".to_string(),
    )
    .unwrap_err();
    let b = get_axia_payments_response_data(
        &transaction(Code::Deny, Some(PhardCode::CardExpired), None),
        402,
        "t".to_string(),
    )
    .unwrap_err();
    assert_ne!(a.code, b.code);
}

#[test]
fn metadata_from_read_entries() {
    let pairs = |v: &[(&str, &str)]| -> Vec<(String, String)> {
        v.iter().map(|(k, x)| (k.to_string(), x.to_string())).collect()
    };
    let m = transaction_metadata_from_entries(pairs(&[("a", "1"), ("b", "\"x\"")]), "ord-7".to_string());
    assert_eq!(
        sorted_entries(&m),
        pairs(&[("external_a", "1"), ("external_b", "\"x\""), ("external_order_id", "ord-7")])
    );
    // A later entry overrides an earlier one; an `order_id` entry overrides the order identifier.
    let m = transaction_metadata_from_entries(
        pairs(&[("a", "1"), ("a", "2"), ("order_id", "mine")]),
        "ord-7".to_string(),
    );
    assert_eq!(sorted_entries(&m), pairs(&[("external_a", "2"), ("external_order_id", "mine")]));
    let m = transaction_metadata_from_entries(Vec::new(), "ord-7".to_string());
    assert_eq!(sorted_entries(&m), pairs(&[("external_order_id", "ord-7")]));
}
