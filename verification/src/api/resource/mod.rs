//! Response bodies with their hypermedia links.

pub mod category_resource;
pub mod product_resource;
pub mod relation;
