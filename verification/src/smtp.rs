//! SMTP mailbox probing: reply interpretation, catch-all detection and the
//! walk over a domain's mail exchangers.

pub mod domain;
pub mod mailbox;
pub mod probe;
pub mod registry;
pub mod response;
pub mod result;

