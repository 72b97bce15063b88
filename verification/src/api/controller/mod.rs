//! Paging of product lists, and the answer to requests no endpoint handles.

pub mod fallback;
pub mod pagination;
pub mod pagination_helper;
