//! Verification and scoring engine for discovering likely email addresses.
//!
//! The crate holds the decision logic of the engine: how an SMTP reply is
//! read, how a domain is classified as catch-all, how mail exchangers are
//! tried in turn, how a webmail provider's recovery flow is walked, how a
//! candidate is scored, how verifications are scheduled and how the final
//! list is ranked. Network, browser and process work is done by the caller,
//! which feeds the outcomes back as plain values.

pub mod candidate;
pub mod config;
pub mod error;
pub mod headless;
pub mod lifecycle;
pub mod logtail;
pub mod models;
pub mod pidfile;
pub mod ranking;
pub mod scheduler;
pub mod scoring;
pub mod service;
pub mod smtp;
pub mod text;
