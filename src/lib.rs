//! A small web-application core: the startup sequence that brings up the
//! database pool, runs migrations and starts the listener, and the mapping of
//! handler outcomes to HTTP replies. The I/O itself is done by the caller.
pub mod config;
pub mod error;
pub mod models;
pub mod reply;
pub mod startup;
