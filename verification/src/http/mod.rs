pub mod error;
pub mod models;
pub mod parse;
pub mod query;
