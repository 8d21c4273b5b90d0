//! Queries to outside services.

pub mod weather;
