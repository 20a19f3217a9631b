//! An adapter between plain HTTP exchanges and the invocation-event protocol
//! of a function-URL backend.
//!
//! An inbound request becomes an [`event::InvocationEvent`]; the backend's
//! reply document becomes a [`reply::OutgoingResponse`]. Every failure is a
//! [`error::ProxyError`], which is answered with a fixed 500 response.

pub mod error;
pub mod text_map;
pub mod json;
pub mod codec;
pub mod event;
pub mod reply;
pub mod flow;
