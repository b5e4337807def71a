//! Verified core of a REST backend toolkit: error envelopes and their
//! rendering, server-error masking, request-id enforcement, response
//! negotiation, user-input validation, and small naming helpers.

pub mod clock;
pub mod context;
pub mod domain;
pub mod errors;
pub mod health;
pub mod http_status;
pub mod ids;
pub mod json;
pub mod macros;
pub mod mask;
pub mod namespace;
pub mod negotiate;
pub mod request_id;
pub mod routes;
pub mod startup;
pub mod tracing;
pub mod user_input;
pub mod validation;
