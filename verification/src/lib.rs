//! Axia payment-gateway connector: the wire model of the Axia API, how Axia's
//! requests and responses are built from and read into the router's payment
//! model, and the requests of each flow.

pub mod codes;
pub mod connector;
pub mod consts;
pub mod display_laws;
pub mod flows;
pub mod json;
pub mod laws;
pub mod outcome_laws;
pub mod request;
pub mod specifications;
pub mod string_map;
pub mod transformers;
pub mod types;
pub mod utils;
pub mod vault_session;
