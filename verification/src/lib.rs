//! Verified core of a desktop calendar-connector backend.
//!
//! The library holds the logic of three UI-facing operations: exchanging an
//! OAuth authorization code for tokens (and resolving the user's email),
//! refreshing an access token, and upserting a calendar-connection record
//! into a remote backend. All network and process-environment access stays
//! outside; the library works on an explicit [`env::Env`] snapshot and on
//! plain reply values, so every decision it makes is verified.

pub mod env;
pub mod google;
pub mod store;
pub mod text;
