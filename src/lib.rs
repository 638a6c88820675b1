//! Bootstrap and delegation logic for a local Cardano development kit:
//! log filtering, configuration defaults, path handling, the setup plan,
//! archive extraction planning and command passthrough.

pub mod logger;
pub mod paths;
pub mod config;
pub mod setup;
pub mod archive;
pub mod delegate;
pub mod download;
pub mod start;
