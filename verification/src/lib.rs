//! Verified core of the GhostLink anonymous messaging server: wire and storage
//! codecs, the per-pod connection registry, the WebSocket session and routing
//! state machines, and the request rules of the REST API.
use vstd::prelude::*;

pub mod account;
pub mod auth;
pub mod cache;
pub mod config;
pub mod contact;
pub mod crypto;
pub mod encoding;
pub mod erasure;
pub mod error;
pub mod group;
pub mod hub;
pub mod ids;
pub mod media;
pub mod message;
pub mod password;
pub mod protocol;
pub mod push;
pub mod registration;
pub mod requests;
pub mod router;
pub mod session;
pub mod text;
pub mod throttle;
pub mod time;
pub mod types;

verus! {

} // verus!
