//! The records of the catalogue: categories, products, users and the
//! product-category relation.

pub mod category;
pub mod product;
pub mod product_category_relation;
pub mod sequence;
pub mod user;
