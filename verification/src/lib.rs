//! Access-control gateway for a Git-hosting service.
//!
//! The crate decides, per request, whether an anonymous or authenticated
//! caller may proceed: it parses HTTP Basic Authentication credentials,
//! verifies them against a user store, resolves best-effort session
//! identity tokens, and applies the repository-visibility policy with its
//! anti-enumeration rule (a caller must not be able to tell a private
//! repository from a missing one).

pub mod errors;
pub mod text;
pub mod store;
pub mod outside;
pub mod basic_auth;
pub mod extensions;
pub mod signatures;
pub mod user_create;
