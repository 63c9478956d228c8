//! A payment-gateway connector for dLocal: it turns the orchestrator's
//! canonical payment and refund requests into signed gateway calls, and the
//! gateway's answers back into canonical results.
//!
//! - `flows`: the uniform per-flow contract (headers, url, body, request,
//!   answer mapping) for Authorize, PSync, Capture, Void, RefundExecute and
//!   RefundSync.
//! - `requests`, `responses`: the gateway's request and answer shapes and
//!   the transformers between them and the canonical model in `types`.
//! - `connector`: the connector itself, header building and error
//!   normalization.
//! - `signing`, `date`, `json`, `text`, `redirect`: request signing,
//!   timestamps, JSON encoding, decimal and hexadecimal text, and redirect
//!   extraction.

pub mod auth;
pub mod connector;
pub mod date;
pub mod duplicate;
pub mod enums;
pub mod errors;
pub mod flows;
pub mod json;
pub mod redirect;
pub mod requests;
pub mod responses;
pub mod signing;
pub mod text;
pub mod types;
