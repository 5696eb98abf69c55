//! Request-validation, pagination, and uniform-response-envelope layer for a
//! resource-oriented API over a "User" resource.
//!
//! The layer is resource-agnostic: it turns untrusted input into a vetted
//! domain value or a structured multi-field error, converts result counts and
//! page parameters into a deterministic page description, and wraps every
//! success or error payload into one uniform envelope shape.

pub mod envelope;
pub mod errors;
pub mod handlers;
pub mod model;
pub mod pagination;
pub mod validation;
