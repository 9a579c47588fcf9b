//! Time-locked savings pots and user profiles, kept in a registry of records
//! that is keyed by derived addresses.

pub mod error;
pub mod identity;
pub mod records;
pub mod registry;
pub mod requests;
pub mod lifecycle;
pub mod laws;
