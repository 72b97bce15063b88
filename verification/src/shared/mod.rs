//! Entities, errors, the authenticated user and the environment settings shared
//! by the service operations.

pub mod auth;
pub mod entity;
pub mod env_loader;
pub mod errors;
