//! The login request and products with their sort options.

pub mod login_request;
pub mod product;
