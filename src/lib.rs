//! Client side of a small binary message-queue protocol: a fixed 256-byte
//! frame header, frame construction from routing chains, and the session
//! state that multiplexes many logical channels over one connection.

pub mod bytes;
pub mod proto;
pub mod factory;
pub mod chain;
pub mod key;
pub mod common;
pub mod channel;
pub mod text;
pub mod session;
pub mod queue;
pub mod raw;
