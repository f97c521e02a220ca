//! Frame codec and result modelling for an event-store TCP protocol.
//!
//! Every exchange on the wire is a length-prefixed frame that carries one
//! [`package::Package`]: a correlation id, optional credentials and a message.
//! The functions here are pure buffer transformations with machine-checked
//! contracts; nothing in this crate performs I/O.

pub mod auth;
mod auth_eq;
pub mod bytes;
pub mod codec;
pub mod errors;
pub mod flags;
pub mod message;
pub mod package;
pub mod write_events;
