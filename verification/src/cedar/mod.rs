//! Cedar integration.

pub mod abac;
pub mod authorizer;
