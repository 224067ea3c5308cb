//! The requests and responses of each flow that the connector implements.

pub mod authorize;
pub mod capture;
pub mod customer;
pub mod psync;
pub mod refund_sync;
pub mod setup_mandate;
pub mod void;
