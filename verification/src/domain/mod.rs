//! The business rules: entities, value objects, the services over them, and
//! the errors they raise.

pub mod entities;
pub mod errors;
pub mod repositories;
pub mod services;
pub mod value_objects;
