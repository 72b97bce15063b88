//! The service operations. Each operation is a state machine: it is started
//! with its arguments and then stepped with the answer to each database query
//! or outside call it asks for, until it is done with a result.

pub mod auth_helper;
pub mod category_products_service;
pub mod category_service;
pub mod category_subcategories_service;
pub mod currency_conversion_service;
pub mod product_service;
pub mod query;
pub mod resource_mapper;
pub mod security_service;
