pub mod aggregator;
pub mod auth;
pub mod client;
pub mod config;
pub mod error;
pub mod mapper;
pub mod message;
pub mod pool;
