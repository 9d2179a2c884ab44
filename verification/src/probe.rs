//! The decisions of the diagnosis stages.

pub mod dns;
pub mod env;
pub mod http;
pub mod path;
pub mod quic;
pub mod tcp;
pub mod tls;
pub mod trace;
