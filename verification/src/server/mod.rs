//! The service: its registry and the replies of its endpoints.

pub mod registry;
pub mod api;
pub mod laws;
