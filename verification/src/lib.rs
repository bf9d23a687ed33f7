//! A synchronous request/response client protocol for a local security
//! service: the message shapes, their JSON wire form, and the decoding of
//! replies into typed results. The transport itself is left to the caller,
//! who writes the bytes of a request and hands back the bytes that were read.

pub mod json;
pub mod protocol;
pub mod codec;
pub mod request;
pub mod wire;
pub mod service_client;
