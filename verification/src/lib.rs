//! Verified core of a cloud-backup upload client.
//!
//! The crate models the two stateful parts of the client: the OAuth2
//! credential lifecycle (load, expiry check, refresh, interactive
//! re-authorization) and the chunked-upload protocol (content-addressed
//! block list, precreate/transfer/commit sequencing). All decisions are
//! verified functions over plain values; the surrounding process performs
//! the network and file I/O that the decisions command.

pub mod chunk;
pub mod errors;
pub mod strutil;
pub mod credential;
pub mod token;
pub mod upload;
pub mod config;
