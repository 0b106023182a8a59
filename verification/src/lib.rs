//! Verified core of the Cassandra authentication canister: configuration
//! updates, the OAuth request builders, the profile extraction from provider
//! replies, the signed authentication response, and the step function that
//! drives one authentication from the caller check to the signed reply.

pub mod methods;
pub mod types;
pub mod utils;
