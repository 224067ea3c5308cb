use axia_connector::codes::{Code, PhardCode};
use axia_connector::connector::Axia;
use axia_connector::flows::{authorize, capture, customer, psync, refund_sync, setup_mandate, void};
use axia_connector::request::{RequestBody, RequestContent};
use axia_connector::specifications::{
    CaptureMethod, CardNetwork, ConnectorIntegrationStatus, FeatureStatus,
    HyperswitchConnectorCategory, IncomingWebhookRequestDetails, PaymentMethod,
    PaymentMethodSpecificFeatures,
};
use axia_connector::transformers::{AxiaCustomerResponse, ErrorResponse, TransactionResponse};
use axia_connector::types::{
    AttemptStatus, Card, ConnectorAuthType, ConnectorCustomerData, ConnectorError, ConnectorParams,
    Connectors, CurrencyUnit, Maskable, Method, PaymentAddress, PaymentMethodData,
    PaymentMethodType, PaymentsAuthorizeData, PaymentsCancelData, PaymentsResponseData,
    RefundsData, RefundsResponseData, RouterData, RouterErrorResponse,
};

fn connectors() -> Connectors {
    Connectors { axia: ConnectorParams { base_url: "https://api.axia.test/".to_string() } }
}

fn body_key() -> ConnectorAuthType {
    ConnectorAuthType::BodyKey { api_key: "key-id".to_string(), key1: "secret".to_string() }
}

fn router_data<Req, Resp>(request: Req, auth: ConnectorAuthType) -> RouterData<Req, Resp> {
    RouterData {
        status: AttemptStatus::Started,
        connector_auth_type: auth,
        connector_request_reference_id: "order-1".to_string(),
        address: PaymentAddress { shipping: None },
        request,
        response: Err(RouterErrorResponse {
            code: String::new(),
            message: String::new(),
            reason: None,
            status_code: 0,
            attempt_status: None,
            connector_transaction_id: None,
        }),
    }
}

fn expected_headers() -> Vec<(String, Maskable)> {
    vec![
        ("Content-Type".to_string(), Maskable::Normal("application/json".to_string())),
        ("X-Api-Key-Id".to_string(), Maskable::Masked("key-id".to_string())),
        ("X-Api-Key".to_string(), Maskable::Masked("secret".to_string())),
    ]
}

fn customer_data() -> ConnectorCustomerData {
    ConnectorCustomerData { description: None, email: None, phone: None, name: Some("Bo".to_string()) }
}

#[test]
fn connector_identity() {
    let a = Axia::new();
    assert_eq!(a.id(), "axia");
    assert_eq!(a.get_currency_unit(), CurrencyUnit::Base);
    assert_eq!(a.common_get_content_type(), "application/json");
    assert_eq!(a.base_url(&connectors()), "https://api.axia.test/");
    assert!(!a.should_call_connector_customer());
    assert!(a.validate_psync_reference_id(false, AttemptStatus::Pending).is_ok());
}

#[test]
fn auth_headers_are_masked_credentials() {
    let h = Axia::new().get_auth_header(&body_key()).unwrap();
    let mut expected = expected_headers();
    expected.remove(0);
    assert_eq!(h, expected);
    let e = Axia::new().get_auth_header(&ConnectorAuthType::TemporaryAuth);
    assert_eq!(e, Err(ConnectorError::FailedToObtainAuthType));
}

#[test]
fn request_headers_start_with_content_type() {
    let req = router_data::<(), PaymentsResponseData>((), body_key());
    assert_eq!(Axia::new().build_headers(&req, &connectors()).unwrap(), expected_headers());
    let req = router_data::<ConnectorCustomerData, PaymentsResponseData>(customer_data(), body_key());
    assert_eq!(customer::get_headers(&Axia::new(), &req, &connectors()).unwrap(), expected_headers());
    let bad = router_data::<(), PaymentsResponseData>(
        (),
        ConnectorAuthType::SignatureKey {
            api_key: "a".to_string(),
            key1: "b".to_string(),
            api_secret: "c".to_string(),
        },
    );
    assert_eq!(
        Axia::new().build_headers(&bad, &connectors()),
        Err(ConnectorError::FailedToObtainAuthType)
    );
}

#[test]
fn error_bodies() {
    let a = Axia::new();
    let e = a
        .build_error_response(
            400,
            Some(ErrorResponse { code: Some(Code::Deny), msoft_code: None, verbiage: Some("bad card".to_string()) }),
        )
        .unwrap();
    assert_eq!(e.code, "Deny");
    assert_eq!(e.message, "bad card");
    assert_eq!(e.status_code, 400);
    assert_eq!(e.connector_transaction_id, None);
    let e = a.build_error_response(503, Some(ErrorResponse::default())).unwrap();
    assert_eq!(e.code, "No error code");
    assert_eq!(e.message, "No error message");
    assert_eq!(a.build_error_response(500, None), Err(ConnectorError::ResponseDeserializationFailed));
    assert_eq!(
        void::get_error_response(&a, 500, None),
        Err(ConnectorError::ResponseDeserializationFailed)
    );
}

#[test]
fn mandates_only_for_cards() {
    let a = Axia::new();
    let card = PaymentMethodData::Card(Card {
        card_number: "1".to_string(),
        card_exp_month: "1".to_string(),
        card_exp_year: "30".to_string(),
        card_cvc: "1".to_string(),
    });
    assert_eq!(a.validate_mandate_payment(Some(PaymentMethodType::Credit), &card), Ok(()));
    assert_eq!(
        a.validate_mandate_payment(Some(PaymentMethodType::ApplePay), &PaymentMethodData::Wallet),
        Err(ConnectorError::NotSupported { message: "apple_pay mandate payment".to_string(), connector: "axia" })
    );
    assert_eq!(
        a.validate_mandate_payment(None, &PaymentMethodData::BankDebit),
        Err(ConnectorError::NotSupported { message: " mandate payment".to_string(), connector: "axia" })
    );
}

#[test]
fn flow_urls() {
    let a = Axia::new();
    let c = connectors();
    let req = router_data::<ConnectorCustomerData, PaymentsResponseData>(customer_data(), body_key());
    assert_eq!(customer::get_url(&a, &req, &c).unwrap(), "https://api.axia.test/api/v2/customer");
    let req = router_data::<(), PaymentsResponseData>((), body_key());
    assert_eq!(setup_mandate::get_url(&a, &req, &c).unwrap(), "https://api.axia.test/api/v2/vault/account");
    let req = router_data::<PaymentsCancelData, PaymentsResponseData>(
        PaymentsCancelData { connector_transaction_id: "T1".to_string() },
        body_key(),
    );
    assert_eq!(void::get_url(&a, &req, &c).unwrap(), "https://api.axia.test/api/v2/transaction/T1/void");
    let req = router_data::<RefundsData, RefundsResponseData>(
        RefundsData {
            refund_id: "R1".to_string(),
            connector_transaction_id: "T2".to_string(),
            minor_refund_amount: 10,
            currency: "USD".to_string(),
        },
        body_key(),
    );
    assert_eq!(
        refund_sync::get_url(&a, &req, &c).unwrap(),
        "https://api.axia.test/api/v2/transaction/T2/refund"
    );
    assert_eq!(authorize::get_content_type(&a), "application/json");
}

#[test]
fn customer_request_is_a_post() {
    let a = Axia::new();
    let req = router_data::<ConnectorCustomerData, PaymentsResponseData>(customer_data(), body_key());
    let q = customer::build_request(&a, &req, &connectors()).unwrap().unwrap();
    assert_eq!(q.method, Method::Post);
    assert_eq!(q.url, "https://api.axia.test/api/v2/customer");
    assert!(q.attach_default_headers);
    assert_eq!(q.headers, expected_headers());
    match q.body {
        Some(RequestContent::Json(RequestBody::Customer(c))) => assert_eq!(c.display_name.as_deref(), Some("Bo")),
        _ => panic!("expected a customer body"),
    }
    let bad = router_data::<ConnectorCustomerData, PaymentsResponseData>(customer_data(), ConnectorAuthType::NoKey);
    assert!(matches!(
        customer::build_request(&a, &bad, &connectors()),
        Err(ConnectorError::FailedToObtainAuthType)
    ));
}

#[test]
fn customer_response_handling() {
    let a = Axia::new();
    let data = router_data::<ConnectorCustomerData, PaymentsResponseData>(customer_data(), body_key());
    let r = customer::handle_response(
        &a,
        data,
        Some(AxiaCustomerResponse { id: Some("cus_9".to_string()), ..Default::default() }),
        200,
    )
    .unwrap();
    assert_eq!(
        r.response,
        Ok(PaymentsResponseData::ConnectorCustomerResponse { connector_customer_id: "cus_9".to_string() })
    );
    assert_eq!(r.status, AttemptStatus::Started);
    let data = router_data::<ConnectorCustomerData, PaymentsResponseData>(customer_data(), body_key());
    assert!(matches!(
        customer::handle_response(&a, data, None, 200),
        Err(ConnectorError::ResponseDeserializationFailed)
    ));
}

#[test]
fn authorize_checks_credentials_before_the_body() {
    let a = Axia::new();
    let req = router_data::<PaymentsAuthorizeData, PaymentsResponseData>(
        PaymentsAuthorizeData {
            payment_method_data: PaymentMethodData::Wallet,
            minor_amount: 100,
            currency: "USD".to_string(),
            metadata: None,
        },
        ConnectorAuthType::NoKey,
    );
    assert!(matches!(
        authorize::build_request(&a, &req, &connectors(), "1.00".to_string()),
        Err(ConnectorError::FailedToObtainAuthType)
    ));
    let req = RouterData { connector_auth_type: body_key(), ..req };
    assert!(matches!(
        authorize::build_request(&a, &req, &connectors(), "1.00".to_string()),
        Err(ConnectorError::NotImplemented(_))
    ));
}

#[test]
fn authorize_request_and_response() {
    let a = Axia::new();
    let mut req = router_data::<PaymentsAuthorizeData, PaymentsResponseData>(
        PaymentsAuthorizeData {
            payment_method_data: PaymentMethodData::Card(Card {
                card_number: "4111".to_string(),
                card_exp_month: "03".to_string(),
                card_exp_year: "2027".to_string(),
                card_cvc: "999".to_string(),
            }),
            minor_amount: 100,
            currency: "USD".to_string(),
            metadata: None,
        },
        body_key(),
    );
    req.address = PaymentAddress {
        shipping: Some(axia_connector::types::Address {
            address: Some(axia_connector::types::AddressDetails { country: None, zip: Some("02139".to_string()) }),
        }),
    };
    let q = authorize::build_request(&a, &req, &connectors(), "1.00".to_string()).unwrap().unwrap();
    assert_eq!(q.method, Method::Post);
    assert_eq!(q.url, "https://api.axia.test/api/v2/transaction/purchase");
    match q.body {
        Some(RequestContent::Json(RequestBody::Purchase(b))) => {
            assert_eq!(b.money.amount, "1.00");
            assert!(b.payment_data.is_some());
        }
        _ => panic!("expected a purchase body"),
    }
    let r = authorize::handle_response(
        &a,
        req,
        Some(TransactionResponse {
            code: Code::Auth,
            phard_code: Some(PhardCode::Success),
            ttid: "T9".to_string(),
            ..Default::default()
        }),
        200,
    )
    .unwrap();
    assert_eq!(r.status, AttemptStatus::Charged);
}

#[test]
fn psync_and_capture_are_not_implemented() {
    let a = Axia::new();
    let req = router_data::<(), PaymentsResponseData>((), body_key());
    assert_eq!(
        psync::build_request(&a, &req, &connectors()).err(),
        Some(ConnectorError::NotImplemented("get_url method".to_string()))
    );
    assert_eq!(
        capture::build_request(&a, &req, &connectors()).err(),
        Some(ConnectorError::NotImplemented("get_url method".to_string()))
    );
    assert!(matches!(
        capture::get_request_body(&a, &req, &connectors()),
        Err(ConnectorError::NotImplemented(m)) if m == "get_request_body method"
    ));
    assert_eq!(psync::get_headers(&a, &req, &connectors()).unwrap(), expected_headers());
}

#[test]
fn void_request_and_response() {
    let a = Axia::new();
    let req = router_data::<PaymentsCancelData, PaymentsResponseData>(
        PaymentsCancelData { connector_transaction_id: "T7".to_string() },
        body_key(),
    );
    let q = void::build_request(&a, &req, &connectors()).unwrap().unwrap();
    assert_eq!(q.method, Method::Delete);
    assert_eq!(q.url, "https://api.axia.test/api/v2/transaction/T7/void");
    assert!(matches!(q.body, Some(RequestContent::Json(RequestBody::EmptyJsonText))));
    let r = void::handle_response(
        &a,
        req,
        Some(TransactionResponse {
            code: Code::Auth,
            phard_code: Some(PhardCode::AlreadyReversed),
            ttid: "T7".to_string(),
            ..Default::default()
        }),
        200,
    )
    .unwrap();
    assert_eq!(r.status, AttemptStatus::Voided);
}

#[test]
fn refund_request_and_response() {
    let a = Axia::new();
    let req = router_data::<RefundsData, RefundsResponseData>(
        RefundsData {
            refund_id: "R1".to_string(),
            connector_transaction_id: "T2".to_string(),
            minor_refund_amount: 10,
            currency: "USD".to_string(),
        },
        body_key(),
    );
    let q = refund_sync::build_request(&a, &req, &connectors(), "0.10".to_string()).unwrap().unwrap();
    assert_eq!(q.method, Method::Post);
    match q.body {
        Some(RequestContent::Json(RequestBody::Refund(b))) => assert_eq!(b.money.amount, "0.10"),
        _ => panic!("expected a refund body"),
    }
    let r = refund_sync::handle_response(
        &a,
        req,
        Some(TransactionResponse { code: Code::Deny, ttid: "T2".to_string(), ..Default::default() }),
        402,
    )
    .unwrap();
    let e = r.response.unwrap_err();
    assert_eq!(e.code, "Deny");
    assert_eq!(e.status_code, 402);
}

#[test]
fn declared_capabilities() {
    let a = Axia::new();
    let info = a.get_connector_about().unwrap();
    assert_eq!(info.display_name, "Axia");
    assert_eq!(info.description, "Axia connector");
    assert_eq!(info.connector_type, HyperswitchConnectorCategory::PaymentGateway);
    assert_eq!(info.integration_status, ConnectorIntegrationStatus::Live);
    let methods = a.get_supported_payment_methods().unwrap();
    assert_eq!(methods.len(), 2);
    assert_eq!(methods[0].payment_method, PaymentMethod::Card);
    assert_eq!(methods[0].payment_method_type, PaymentMethodType::Credit);
    assert_eq!(methods[1].payment_method_type, PaymentMethodType::Debit);
    let d = &methods[1].details;
    assert_eq!(d.mandates, FeatureStatus::Supported);
    assert_eq!(
        d.supported_capture_methods,
        vec![CaptureMethod::Automatic, CaptureMethod::Manual, CaptureMethod::SequentialAutomatic]
    );
    match &d.specific_features {
        Some(PaymentMethodSpecificFeatures::Card(f)) => {
            assert_eq!(f.supported_card_networks.len(), 7);
            assert_eq!(f.supported_card_networks[6], CardNetwork::UnionPay);
        }
        None => panic!("expected card features"),
    }
    assert_eq!(a.get_supported_webhook_flows().unwrap().len(), 0);
    let w = IncomingWebhookRequestDetails { body: vec![] };
    assert_eq!(a.get_webhook_event_type(&w), Err(ConnectorError::WebhooksNotImplemented));
    assert_eq!(a.get_webhook_object_reference_id(&w), Err(ConnectorError::WebhooksNotImplemented));
    assert_eq!(a.get_webhook_resource_object(&w), Err(ConnectorError::WebhooksNotImplemented));
}
