//! The user a request is made by.

pub mod auth_user;
