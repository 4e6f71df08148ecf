//! Session and token lifecycle of a backend that acts for a signed-in user
//! against a source-control provider: the token record and its cookie, the
//! validity and refresh policy, and the sign-in, sign-out and "who am I"
//! flows, each as a decision over plain values. The exchanges with the
//! provider lie with the caller, between two steps of a flow.

pub mod api;
pub mod auth;
pub mod client;
pub mod clock;
pub mod error;
pub mod jar;
pub mod json;
pub mod models;
pub mod payloads;
pub mod scm_client;
pub mod state;
pub mod text;
pub mod token;
pub mod utils;
