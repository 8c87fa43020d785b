//! Connection configuration of the databases Ncube talks to.
pub mod http;
pub mod sqlite;

