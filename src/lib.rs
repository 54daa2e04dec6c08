pub mod config;
pub mod search;
pub mod tuning;
