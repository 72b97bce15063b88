//! The error kinds of the service.

pub mod error_enum;
