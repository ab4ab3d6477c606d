//! Prepares a package for integration testing by editing its build manifest:
//! it detects whether the package follows the anchor dialect or the plain
//! dialect, injects a test feature flag and a dev-time dependency on a test
//! framework, reconciles version numbers between two manifests, and locates
//! an extracted framework directory whose exact name is not known in advance.
//!
//! The manifest itself is held in a `toml_edit` document so that untouched
//! content keeps its formatting; every decision made about that document is
//! specified and verified against a logical view of its sections and entries.
//!
//! The manifest file is not locked: callers must keep a single-writer
//! discipline on it, as concurrent edits of one manifest can lose updates.

pub mod acquire;
pub mod config;
pub mod doc_edit;
pub mod error;
pub mod model;
pub mod mutate;
pub mod project_toml;
pub mod reconcile;
