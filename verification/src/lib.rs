//! Verified core of a repository backup tool.
//!
//! The library plans one backup pass: it parses the hosting API's listing
//! response into repository descriptors, decides for each repository whether
//! to clone it fresh or update it in place, and builds the authenticated
//! clone URL and the local backup path. All side effects (the HTTP request,
//! the version-control subprocess, the timer) live outside the library and
//! consume the plan it produces.

pub mod config;
pub mod json;
pub mod listing;
pub mod plan;
pub mod repo;
pub mod text;
pub mod url;
