//! A real-time relay of events between a backend and its frontends: an event
//! bus, the handler of a connection, and what belongs around them.

pub mod config;
pub mod context_map;
pub mod devtools;
pub mod domain;
pub mod dto;
pub mod error_handling;
pub mod event_bus;
pub mod handlers;
pub mod http;
pub mod json;
pub mod logging;
pub mod plugin_api;
pub mod serialization;
pub mod stamp;
pub mod store;
pub mod text;
pub mod timefmt;
pub mod websocket;
pub mod window_logger;
