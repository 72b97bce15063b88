//! Roles, token claims and the authenticated user.

pub mod auth_context_holder;
pub mod jwt_handler;
pub mod role;
