//! Gate around a long-lived secret key.
//!
//! A session context is either sealed (the key is locked away) or unsealed
//! (the key has been handed to the running service). The one transition from
//! sealed to unsealed happens when an operator proves knowledge of the
//! passphrase; it installs the key into the service handle, mints a fresh
//! bearer token, and returns that token. Later requests authenticate by
//! presenting the token, which is compared against the single token guard.

pub mod context;
pub mod keystore;
pub mod service;
pub mod token;
