//! Listing of vehicle manufacturers from a registry response.
//!
//! The library takes the parsed response of the manufacturer registry,
//! projects each entry to a record of three optional texts, keeps the
//! records whose legal name contains a filter text, and lays the survivors
//! out as the text that a terminal shows.

pub mod args;
pub mod extract;
pub mod failure;
pub mod json;
pub mod laws;
pub mod listing;
pub mod record;
pub mod text;
