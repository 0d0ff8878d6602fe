//! The iRacing telemetry source.

pub mod header;
pub mod session_info;
pub mod client;
pub mod var_header;
