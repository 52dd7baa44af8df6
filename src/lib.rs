//! Maps a chat member's externally verified identity to a tiered set of
//! guild roles: trust classification, role reconciliation, request
//! endpoints, and the verification run as a state machine that a runtime
//! drives with the replies of the three identity services.

pub mod endpoints;
pub mod pipeline;
pub mod roles;
pub mod tier;
