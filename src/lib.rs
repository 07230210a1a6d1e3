//! Input pipeline for a GameCube controller adapter: decoding of the adapter's
//! USB reports, a lock-protected cache of the latest decoded state, and the
//! mapping of one port onto the N64 controller layout.
pub mod report;
pub mod mapping;
pub mod cache;
pub mod host;
