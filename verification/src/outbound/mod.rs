//! What the data access computes around its queries.

pub mod dao;
