pub mod account;
pub mod commands;
pub mod model;
pub mod orders;
pub mod pagination;
pub mod reports;
pub mod trade_updates;
pub mod contexts;
