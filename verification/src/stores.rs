//! The stores that keep Ncube's data.
pub mod config;
pub mod unit;

