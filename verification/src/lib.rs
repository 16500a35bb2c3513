//! A URL-shortening service core: short-code generation, the record table,
//! and the three request operations (create, list, redirect) built on them.

pub mod config;
pub mod error;
pub mod handlers;
pub mod models;
pub mod store;
pub mod utils;
