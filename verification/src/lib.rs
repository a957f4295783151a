//! Client library for the Kollider derivatives exchange.
//!
//! The heart of the crate is the WebSocket session protocol layer: a tagged
//! JSON wire format for outbound requests and inbound replies/pushes, an
//! authentication signer, and a session engine that correlates one-shot
//! request/response calls over an asynchronous push stream.

pub mod api;
pub mod api_codec;
pub mod auth;
pub mod data;
pub mod decode;
pub mod encode;
pub mod json;
pub mod oneshot;
pub mod text;
