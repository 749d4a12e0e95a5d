//! Client-side core of a challenge-gated remote login flow: decoding the
//! service's JSON-shaped responses, encrypting the salted password under the
//! server-issued RSA public key, and sequencing one login attempt through a
//! session whose challenge epoch is never mixed across fetches.
//!
//! Network transport is an external collaborator: callers fetch the raw
//! responses, hand them to this crate as [`json::Json`] values, and send the
//! form this crate builds.

pub mod client;
pub mod codec;
pub mod json;
pub mod orchestrator;

pub use client::{Captcha, Error, LoginInfo, LoginKeys, LoginResult};
pub use codec::rsa_encode;
pub use json::Json;
pub use orchestrator::{GeetestRequest, SessionOrchestrator};
