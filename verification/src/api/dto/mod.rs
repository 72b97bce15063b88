//! Request bodies.

pub mod auth_dto;
pub mod category_dto;
pub mod product_dto;
