//! Typed request construction for the CKAN Action API (version 3).
//!
//! Every remote action has one method on [`CKAN`]. A method turns its typed
//! arguments into a [`Request`]: the verb, the address, the optional
//! `Authorization` header and the payload. Sending the request over the
//! network is left to the caller; [`decode_response`] turns the bytes that
//! come back into a JSON value.

pub mod actions_create;
pub mod actions_delete;
pub mod actions_get;
pub mod actions_patch;
pub mod actions_update;
pub mod body;
pub mod client;
pub mod json;
pub mod laws;
pub mod request;

pub use body::{Body, Fields};
pub use client::{decode_response, ClientModel, CKAN};
pub use json::{IntoJson, Json};
pub use request::{CkanError, Method, Payload, PayloadModel, Request, RequestModel};
