//! Decision logic of an iRacing telemetry client: reading the shared-memory
//! header, choosing the newest telemetry buffer, tracking the connection,
//! caching the session-info document and decoding its Windows-1252 text.
//! The Windows handles, the waits and the YAML parsing live in `app/`.

pub mod iracing;
pub mod utils;
