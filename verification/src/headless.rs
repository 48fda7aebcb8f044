//! Browser-driven probing of webmail providers' account-recovery flows.

pub mod capabilities;
pub mod dispatcher;
pub mod flow;
pub mod provider;
pub mod selectors;
