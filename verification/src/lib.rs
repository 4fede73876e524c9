//! Payload model of a webhook interaction protocol: typed requests decoded from
//! JSON values, typed replies encoded back into them, and the row/leaf component
//! tree that both share.
//!
//! - [`json`]: the JSON value that comes in and goes out.
//! - [`component`]: rows, buttons and text fields.
//! - [`request`]: an interaction and what can be read from it.
//! - [`response`]: a reply and its builders.
//! - [`decode`]: the rules that read an interaction from a JSON value.
//! - [`encode`]: the wire form of a reply.
//! - [`laws`]: what is proved of all of these together.
//! - [`demo`]: a small handler built on them.

pub mod component;
pub mod decode;
pub mod demo;
pub mod encode;
pub mod json;
pub mod laws;
pub mod request;
pub mod response;
