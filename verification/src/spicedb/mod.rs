//! SpiceDB (Authzed API) integration: the requests, the meaning of the replies,
//! and the comparison of schemas.

pub mod client;
pub mod messages;
pub mod rebac;
pub mod schema;
