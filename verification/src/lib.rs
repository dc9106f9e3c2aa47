//! Credential validation and key caching for a session-authentication service.
//!
//! The crate holds the decisions of the service: a time-to-live cache, the
//! rules by which a downloaded key set is searched and cached, the checks on
//! identity tokens and session tokens, and the replies that the transports
//! hand out.
//! Network traffic, configuration files and the listeners themselves are left
//! to the program that embeds the crate.

pub mod cache;
pub mod cert;
pub mod clock;
pub mod config;
pub mod facade;
pub mod google_auth;
pub mod grpc;
pub mod jwt;
pub mod text;
pub mod token;
pub mod web;
