//! The authentication and session core of a user-identity service:
//! credential derivation and checking, signed session tokens, the
//! revocation store's policy, and the decisions of the session flows.
pub mod role;
pub mod errors;
pub mod credential;
pub mod clock;
pub mod text;
pub mod token;
pub mod revocation;
pub mod forms;
pub mod user;
pub mod profile;
pub mod session;
pub mod reset;
pub mod endpoints;
pub mod hashkey;
