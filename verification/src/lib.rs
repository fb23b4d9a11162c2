//! The core of a small todo service: an ordered in-memory collection of todo
//! records and the six request operations on it (liveness, list, create,
//! fetch, update, delete). Every operation takes plain values and returns the
//! status code and payload of its reply, so the transport around it only has
//! to decode requests and encode replies.

mod clock;
pub mod handler;
pub mod ident;
pub mod laws;
pub mod model;
pub mod response;
pub mod store;
