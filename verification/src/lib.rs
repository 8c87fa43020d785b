//! Verified core of the Ncube daemon: parsing of database connection
//! strings, the decisions of the host actor over the configuration store,
//! the rules of the configuration handlers and the flow of segment
//! verification.
pub mod data;
pub mod db;
pub mod handlers;
pub mod host;
pub mod stores;
pub mod text;

