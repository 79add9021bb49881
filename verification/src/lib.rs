//! Verified core of a purple-team telemetry and simulation toolkit.
//!
//! The heart of the library is the browser credential extraction subsystem:
//! envelope decryption for Chromium password blobs, master-key resolution from
//! a browser's `Local State` file, partial-failure-tolerant reading of login
//! stores, a session protocol for the Mozilla crypto library, and the
//! orchestration that aggregates every source into one scan report.

pub mod browser;
pub mod cipher;
pub mod keys;
pub mod nss;
pub mod paths;
pub mod report;
pub mod runner;
pub mod sims;
pub mod store;
pub mod text;
