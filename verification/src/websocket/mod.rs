//! The connection side of the relay: wire messages, the lifecycle of one
//! connection, and the commands a frontend may call.

pub mod commands;
pub mod frame;
pub mod handler;
pub mod laws;
pub mod model;
pub mod notice;
pub mod protocol;
pub mod types;
pub mod wire;
