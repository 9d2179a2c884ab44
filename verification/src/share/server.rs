//! The share server: everything but the wiring to HTTP and to the file system.

pub mod id;
pub mod laws;
pub mod ratelimit;
pub mod render;
pub mod retention;
pub mod stored;
pub mod uploads;
