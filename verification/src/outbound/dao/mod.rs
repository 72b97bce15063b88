//! Query texts, paging windows and the joining of rows.

pub mod product_category_repository;
pub mod product_repository;
