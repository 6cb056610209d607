//! Prediction of the boot-loader TPM platform configuration register.
//!
//! The library replays a measured-boot event log: for every event on the
//! boot-loader register it decides which digest to fold into the running
//! register state — the digest recorded in the log, or a freshly computed
//! Authenticode digest of a resolved, possibly overridden file — and chains
//! the chosen digests with the one-way extend operation.

pub mod device_path;
pub mod drop_ins;
pub mod hash;
pub mod mount;
pub mod paths;
pub mod util;
pub mod walker;
