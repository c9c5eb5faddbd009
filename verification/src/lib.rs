//! Permission-mutation gateway library.
//!
//! Turns grant / revoke / replace requests for a role-resource binding on an
//! identity into an ordered batch of tree-patch operations against the
//! identity's metadata document, validates the TLS material for the
//! cert-authenticated listeners, and models the lifecycle of the three
//! network listeners the gateway runs.

pub mod config;
pub mod engine;
pub mod lifecycle;
pub mod op;
pub mod patch;
pub mod record;
pub mod tls;
