//! Session details for an external card vault, handed to the payment SDK.
use vstd::prelude::*;

use crate::types::ConnectorAuthType;
use crate::utils::text_eq;

verus! {

/// The environment the router runs in.
#[derive(Clone, Copy, Debug, PartialEq, Eq, Structural)]
pub enum Env {
    Development,
    Sandbox,
    Integ,
    Production,
}

/// The SDK environment for a router environment: `live` in production,
/// `sandbox` everywhere else.
pub open spec fn sdk_env_text(env: Env) -> Seq<char> {
    match env {
        Env::Production => "live"@,
        _ => "sandbox"@,
    }
}

/// External vaults that the router knows.
#[derive(Clone, Copy, Debug, PartialEq, Eq, Structural)]
pub enum VaultConnectors {
    Vgs,
    HyperswitchVault,
}

/// The vault that a connector name names.
pub open spec fn vault_connector_named(name: Seq<char>) -> Option<VaultConnectors> {
    if name == "vgs"@ {
        Some(VaultConnectors::Vgs)
    } else if name == "hyperswitch_vault"@ {
        Some(VaultConnectors::HyperswitchVault)
    } else {
        None
    }
}

impl VaultConnectors {
    /// The vault that a connector name names.
    pub fn from_str(name: &str) -> (r: Option<VaultConnectors>)
        ensures
            r == vault_connector_named(name@),
    {
        if text_eq(name, "vgs") {
            Some(VaultConnectors::Vgs)
        } else if text_eq(name, "hyperswitch_vault") {
            Some(VaultConnectors::HyperswitchVault)
        } else {
            None
        }
    }
}

/// Session details for the VGS vault.
#[derive(Debug, PartialEq, Eq)]
pub struct VgsSessionDetails {
    pub external_vault_id: String,
    pub sdk_env: String,
}

/// Session details for an external vault.
#[derive(Debug, PartialEq, Eq)]
pub enum VaultSessionDetails {
    Vgs(VgsSessionDetails),
}

/// Errors the router reports to its API callers.
#[derive(Clone, Copy, Debug, PartialEq, Eq, Structural)]
pub enum ApiErrorResponse {
    InternalServerError,
}

/// `r` is the session for the vault account named `connector_name` whose
/// credentials were read as `details` (none when they could not be read):
/// an error when the name names no vault or the credentials are unreadable;
/// for VGS with signature-key credentials, the API secret as the vault
/// identifier and the SDK environment; no session otherwise.
pub open spec fn is_vault_session_result(
    r: Result<Option<VaultSessionDetails>, ApiErrorResponse>,
    env: Env,
    connector_name: Seq<char>,
    details: Option<ConnectorAuthType>,
) -> bool {
    match (vault_connector_named(connector_name), details) {
        (None, _) => r == Err::<Option<VaultSessionDetails>, ApiErrorResponse>(
            ApiErrorResponse::InternalServerError,
        ),
        (Some(_), None) => r == Err::<Option<VaultSessionDetails>, ApiErrorResponse>(
            ApiErrorResponse::InternalServerError,
        ),
        (
            Some(VaultConnectors::Vgs),
            Some(ConnectorAuthType::SignatureKey { api_key, key1, api_secret }),
        ) => r matches Ok(Some(VaultSessionDetails::Vgs(d))) && d.external_vault_id == api_secret
            && d.sdk_env@ == sdk_env_text(env),
        _ => r == Ok::<Option<VaultSessionDetails>, ApiErrorResponse>(None),
    }
}

/// The session details of an external vault account.
pub fn generate_vault_session_details(
    env: Env,
    connector_name: &str,
    connector_account_details: Option<ConnectorAuthType>,
) -> (r: Result<Option<VaultSessionDetails>, ApiErrorResponse>)
    ensures
        is_vault_session_result(r, env, connector_name@, connector_account_details),
{
    let connector = match VaultConnectors::from_str(connector_name) {
        Some(c) => c,
        None => {
            return Err(ApiErrorResponse::InternalServerError);
        },
    };
    let connector_auth_type = match connector_account_details {
        Some(a) => a,
        None => {
            return Err(ApiErrorResponse::InternalServerError);
        },
    };
    match (connector, connector_auth_type) {
        (VaultConnectors::Vgs, ConnectorAuthType::SignatureKey { api_secret, .. }) => {
            let sdk_env = match env {
                Env::Sandbox | Env::Development | Env::Integ => "sandbox",
                Env::Production => "live",
            }.to_owned();
            Ok(Some(VaultSessionDetails::Vgs(VgsSessionDetails { external_vault_id: api_secret, sdk_env })))
        },
        (VaultConnectors::HyperswitchVault, ConnectorAuthType::SignatureKey { .. }) => Ok(None),
        _ => Ok(None),
    }
}

/// What the router does next to fill in a payment's vault session.
#[derive(Debug, PartialEq, Eq)]
pub enum VaultSessionStep {
    /// Nothing: the profile uses no external vault.
    Done,
    /// Fetch the merchant's connector account of this vault, pass its name and
    /// credentials to `generate_vault_session_details`, and store what that
    /// gives as the payment's vault session.
    FetchConnectorAccount { vault_connector_id: Option<String> },
}

/// The first step of filling in a payment's vault session: a fetch of the
/// vault's connector account when the profile uses an external vault.
pub fn populate_vault_session_details(
    external_vault_enabled: bool,
    vault_connector_id: Option<String>,
) -> (s: VaultSessionStep)
    ensures
        external_vault_enabled ==> s == (VaultSessionStep::FetchConnectorAccount {
            vault_connector_id,
        }),
        !external_vault_enabled ==> s == VaultSessionStep::Done,
{
    if external_vault_enabled {
        VaultSessionStep::FetchConnectorAccount { vault_connector_id }
    } else {
        VaultSessionStep::Done
    }
}

/// A merchant's connector account, as the router's store gives it.
#[derive(Debug)]
pub struct MerchantConnectorAccount {
    pub connector_name: String,
    /// The account's credentials; none when they could not be read.
    pub connector_account_details: Option<ConnectorAuthType>,
}

/// What the router does once it has looked up the vault's connector account.
#[derive(Debug, PartialEq, Eq)]
pub enum VaultAction {
    /// Store this as the payment's vault session, exactly once and also when
    /// it is none, then return `Ok(())`.
    Store(Option<VaultSessionDetails>),
    /// Return this error and store nothing.
    ReturnErr(ApiErrorResponse),
}

/// The step after the lookup of the vault's connector account: a failed
/// lookup is handed back unchanged; otherwise the account's session, as
/// `generate_vault_session_details` gives it, is to be stored, or its error
/// handed back.
pub fn on_account(account: Result<MerchantConnectorAccount, ApiErrorResponse>, env: Env) -> (a:
    VaultAction)
    ensures
        match account {
            Err(e) => a == VaultAction::ReturnErr(e),
            Ok(acc) => match a {
                VaultAction::Store(v) => is_vault_session_result(
                    Ok(v),
                    env,
                    acc.connector_name@,
                    acc.connector_account_details,
                ),
                VaultAction::ReturnErr(e) => is_vault_session_result(
                    Err(e),
                    env,
                    acc.connector_name@,
                    acc.connector_account_details,
                ),
            },
        },
{
    match account {
        Err(e) => VaultAction::ReturnErr(e),
        Ok(acc) => match generate_vault_session_details(
            env,
            acc.connector_name.as_str(),
            acc.connector_account_details,
        ) {
            Ok(v) => VaultAction::Store(v),
            Err(e) => VaultAction::ReturnErr(e),
        },
    }
}

} // verus!
