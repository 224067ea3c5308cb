use axia_connector::string_map::StringMap;
use axia_connector::types::{Card, ConnectorAuthType, ConnectorError};
use axia_connector::utils::{
    expiry_date_as_mmyy, get_unimplemented_payment_method_error_message, parse_u8, text_eq,
    two_digits_month,
};
use axia_connector::vault_session::{
    generate_vault_session_details, on_account, populate_vault_session_details, ApiErrorResponse,
    Env, MerchantConnectorAccount, VaultAction, VaultConnectors, VaultSessionDetails,
    VaultSessionStep, VgsSessionDetails,
};

fn card(month: &str, year: &str) -> Card {
    Card {
        card_number: "4".to_string(),
        card_exp_month: month.to_string(),
        card_exp_year: year.to_string(),
        card_cvc: "1".to_string(),
    }
}

fn signature_key() -> ConnectorAuthType {
    ConnectorAuthType::SignatureKey {
        api_key: "k".to_string(),
        key1: "k1".to_string(),
        api_secret: "vault-123".to_string(),
    }
}

#[test]
fn parse_u8_matches_std() {
    for text in ["0", "7", "007", "+5", "255", "256", "+", "", "-1", "1a", " 1", "99999", "+012"] {
        assert_eq!(parse_u8(text), text.parse::<u8>().ok(), "text {:?}", text);
    }
}

#[test]
fn months_have_two_digits() {
    assert_eq!(two_digits_month(1), "01");
    assert_eq!(two_digits_month(9), "09");
    assert_eq!(two_digits_month(10), "10");
    assert_eq!(two_digits_month(12), "12");
    for m in 1u8..=12 {
        assert_eq!(parse_u8(&two_digits_month(m)), Some(m));
    }
}

#[test]
fn card_expiry_dates() {
    assert_eq!(card("12", "2030").get_expiry_date_as_mmyy(), Ok("1230".to_string()));
    assert_eq!(card("7", "31").get_expiry_date_as_mmyy(), Ok("0731".to_string()));
    assert_eq!(card("3", "2030").get_expiry_date_as_mmyy(), Ok("0330".to_string()));
    assert_eq!(card("+09", "2031").get_expiry_date_as_mmyy(), Ok("0931".to_string()));
    assert_eq!(card("12", "2030").get_card_expiry_year_2_digit(), Ok("30".to_string()));
    assert_eq!(card("12", "2").get_card_expiry_year_2_digit(), Err(ConnectorError::RequestEncodingFailed));
    assert_eq!(card("12", "2").get_expiry_date_as_mmyy(), Err(ConnectorError::RequestEncodingFailed));
    assert_eq!(card("12", "").get_expiry_date_as_mmyy(), Err(ConnectorError::RequestEncodingFailed));
    assert_eq!(card("12", "20ab").get_expiry_date_as_mmyy(), Err(ConnectorError::RequestEncodingFailed));
    assert_eq!(card("12", "é2").get_expiry_date_as_mmyy(), Err(ConnectorError::RequestEncodingFailed));
    assert_eq!(card("12", "2é").get_expiry_date_as_mmyy(), Err(ConnectorError::RequestEncodingFailed));
    let bad_month = Err(ConnectorError::InvalidDataFormat {
        field_name: "payment_method_data.card.card_exp_month",
    });
    assert_eq!(card("13", "2030").get_expiry_date_as_mmyy(), bad_month);
    assert_eq!(card("0", "2030").get_expiry_date_as_mmyy(), bad_month);
    assert_eq!(card("ab", "2030").get_expiry_date_as_mmyy(), bad_month);
    // The year is looked at before the month.
    assert_eq!(card("13", "7").get_expiry_date_as_mmyy(), Err(ConnectorError::RequestEncodingFailed));
}

#[test]
fn expiry_dates_are_four_digits() {
    for (month, year) in [("1", "2030"), ("11", "7"), ("12", "ab"), ("5", "99"), ("10", "2100")] {
        if let Ok(d) = expiry_date_as_mmyy(month, year) {
            assert_eq!(d.len(), 4);
            assert!(d.chars().all(|c| c.is_ascii_digit()));
            let m: u8 = d[..2].parse().unwrap();
            assert!((1..=12).contains(&m));
        }
    }
    assert_eq!(expiry_date_as_mmyy("11", "7"), Err(ConnectorError::RequestEncodingFailed));
    assert_eq!(expiry_date_as_mmyy("5", "99"), Ok("0599".to_string()));
}

#[test]
fn texts() {
    assert!(text_eq("vgs", "vgs"));
    assert!(!text_eq("vgs", "VGS"));
    assert_eq!(get_unimplemented_payment_method_error_message("x"), "Selected payment method through x");
}

#[test]
fn string_map_replaces_values() {
    let mut m = StringMap::new();
    assert_eq!(m.len(), 0);
    m.insert("a".to_string(), "1".to_string());
    m.insert("b".to_string(), "2".to_string());
    m.insert("a".to_string(), "3".to_string());
    assert_eq!(m.len(), 2);
    let mut e = m.entries().clone();
    e.sort();
    assert_eq!(e, vec![("a".to_string(), "3".to_string()), ("b".to_string(), "2".to_string())]);
}

#[test]
fn vault_connector_names() {
    assert_eq!(VaultConnectors::from_str("vgs"), Some(VaultConnectors::Vgs));
    assert_eq!(VaultConnectors::from_str("hyperswitch_vault"), Some(VaultConnectors::HyperswitchVault));
    assert_eq!(VaultConnectors::from_str("axia"), None);
}

#[test]
fn vgs_session_names_the_vault_and_environment() {
    assert_eq!(
        generate_vault_session_details(Env::Production, "vgs", Some(signature_key())),
        Ok(Some(VaultSessionDetails::Vgs(VgsSessionDetails {
            external_vault_id: "vault-123".to_string(),
            sdk_env: "live".to_string(),
        })))
    );
    for env in [Env::Sandbox, Env::Development, Env::Integ] {
        match generate_vault_session_details(env, "vgs", Some(signature_key())) {
            Ok(Some(VaultSessionDetails::Vgs(d))) => assert_eq!(d.sdk_env, "sandbox"),
            other => panic!("unexpected {:?}", other),
        }
    }
}

#[test]
fn other_vaults_have_no_session() {
    assert_eq!(generate_vault_session_details(Env::Sandbox, "hyperswitch_vault", Some(signature_key())), Ok(None));
    assert_eq!(
        generate_vault_session_details(Env::Sandbox, "vgs", Some(ConnectorAuthType::HeaderKey { api_key: "k".to_string() })),
        Ok(None)
    );
}

#[test]
fn vault_session_errors() {
    assert_eq!(
        generate_vault_session_details(Env::Sandbox, "unknown", Some(signature_key())),
        Err(ApiErrorResponse::InternalServerError)
    );
    assert_eq!(
        generate_vault_session_details(Env::Sandbox, "vgs", None),
        Err(ApiErrorResponse::InternalServerError)
    );
}

#[test]
fn vault_session_steps() {
    assert_eq!(populate_vault_session_details(false, Some("mca_1".to_string())), VaultSessionStep::Done);
    assert_eq!(
        populate_vault_session_details(true, Some("mca_1".to_string())),
        VaultSessionStep::FetchConnectorAccount { vault_connector_id: Some("mca_1".to_string()) }
    );
}

fn account(name: &str, details: Option<ConnectorAuthType>) -> Result<MerchantConnectorAccount, ApiErrorResponse> {
    Ok(MerchantConnectorAccount { connector_name: name.to_string(), connector_account_details: details })
}

#[test]
fn failed_account_lookup_is_returned_unchanged() {
    assert_eq!(
        on_account(Err(ApiErrorResponse::InternalServerError), Env::Production),
        VaultAction::ReturnErr(ApiErrorResponse::InternalServerError)
    );
}

#[test]
fn vault_session_is_stored_also_when_none() {
    assert_eq!(
        on_account(account("vgs", Some(signature_key())), Env::Sandbox),
        VaultAction::Store(Some(VaultSessionDetails::Vgs(VgsSessionDetails {
            external_vault_id: "vault-123".to_string(),
            sdk_env: "sandbox".to_string(),
        })))
    );
    assert_eq!(on_account(account("hyperswitch_vault", Some(signature_key())), Env::Sandbox), VaultAction::Store(None));
}

#[test]
fn vault_session_error_stores_nothing() {
    assert_eq!(
        on_account(account("unknown", Some(signature_key())), Env::Sandbox),
        VaultAction::ReturnErr(ApiErrorResponse::InternalServerError)
    );
    assert_eq!(
        on_account(account("vgs", None), Env::Sandbox),
        VaultAction::ReturnErr(ApiErrorResponse::InternalServerError)
    );
}
