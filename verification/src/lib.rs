//! A gateway for GitHub webhooks: it authenticates a delivery by its
//! HMAC-SHA256 signature, decides the reply, and says what to relay downstream.

pub mod config;
pub mod encoding;
pub mod forwarder;
pub mod gateway;
pub mod mac;
pub mod signature;
