//! Verified core of a document-store hook that turns each written
//! notification request into one outbound e-mail delivery call.
pub mod dispatch;
pub mod error;
pub mod hooks;
pub mod json;
pub mod message;
pub mod outcall;
pub mod outcome;
