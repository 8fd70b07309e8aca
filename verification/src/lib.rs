//! Core of an embeddable HTTP/1.1 server adapter.
//!
//! The adapter turns the push-driven service model of an HTTP engine into
//! pull-style operations that a single-threaded host invokes by resource
//! handle. This crate holds the rules of those operations: the resource table
//! and the lifecycle of its handles, the single-slot rendezvous between engine
//! and host, header normalisation, URL reconstruction, and the WebSocket
//! accept key. Every operation is a synchronous step from state and event to
//! next state and answer; awaiting the transport is the caller's business.

pub mod accept;
pub mod body;
pub mod conn;
pub mod declaration;
pub mod error;
pub mod headers;
pub mod lifecycle;
pub mod ops;
pub mod outcome;
pub mod request;
pub mod response;
pub mod slot;
pub mod table;
pub mod upgrade;

pub use conn::start_http;
pub use declaration::get_unstable_declaration;
pub use ops::init;
