//! The users resource group: entity model, provider contract, the in-memory
//! provider, and the routing decisions behind the `/users` endpoints.

pub mod model;
pub mod provider;
pub mod dummy;
pub mod routes;
