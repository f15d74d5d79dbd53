//! Connection core of a Nacos gRPC client: the message envelope, the
//! outbound stream gate, the inbound dispatcher, request completion and the
//! state machine of the connection actor.
//!
//! The crate performs no I/O. Each transition takes the event that the
//! surrounding runtime observed and returns the actions it has to carry out.

pub mod payload;
pub mod transport;
pub mod api_model;
pub mod channel;
pub mod dispatcher;
pub mod request;
pub mod machine;
pub mod client;
pub mod laws;
