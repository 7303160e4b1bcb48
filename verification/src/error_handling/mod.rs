//! Errors as values: what an error carries, how context is added to it, how it
//! is handled where it surfaces, and how results are combined.

pub mod app_error;
pub mod error_context;
pub mod error_handler;
pub mod result_ext;
