//! Client-side authentication and request layer for a mail service HTTP API.
//!
//! The crate models three things:
//! - the domain and request-builder types that describe each API call
//!   (method, path, headers, structured body);
//! - an authentication flow that performs an SRP login as an explicit
//!   state machine, validates the server's proof and branches on the
//!   account's second-factor requirement;
//! - a session that owns shared credentials, attaches them to outgoing
//!   requests and transparently refreshes them once per wrapped call
//!   when the server signals expiry.
//!
//! Network transport and JSON encoding live outside the crate: every flow
//! is a step function from the previous response to the next request, so a
//! blocking or a suspending driver can execute it unchanged.

pub mod auth;
pub mod events;
pub mod http;
pub mod keys;
pub mod labels;
pub mod message;
pub mod requests;
pub mod response;
pub mod secret;
pub mod sequence;
pub mod session;
pub mod srp;
pub mod user;
