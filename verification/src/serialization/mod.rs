//! How the backend and the frontend talk: the transports and formats on offer,
//! the ones selected, and the engine that writes and reads messages.

pub mod communication_config;
pub mod serialization;
