//! Request and response shapes of the HTTP interface and the values the
//! endpoints compute.

pub mod controller;
pub mod dto;
pub mod error;
pub mod resource;
