//! Verified core of a small e-commerce catalogue service: pagination, sorting,
//! authorization rules, error responses, HATEOAS links and the decision logic of
//! the service operations.

pub mod text;
pub mod clock;
pub mod security;
pub mod errors;
pub mod shared;
pub mod api;
pub mod entity;
pub mod service;
pub mod outbound;
