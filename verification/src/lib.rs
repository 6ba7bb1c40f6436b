//! Verified core of the Alpaca adapter: venue enums, endpoint selection, credentials,
//! order translation, stream session state, pagination and request validation.

pub mod common;
pub mod config;
pub mod data;
pub mod factories;
pub mod decimal;
pub mod execution;
pub mod http;
pub mod provider;
pub mod requests;
pub mod websocket;
