//! The posts resource group: entity model, provider contract, the in-memory
//! provider, and the routing decisions behind the `/posts` endpoints.

pub mod model;
pub mod provider;
pub mod dummy;
pub mod routes;
