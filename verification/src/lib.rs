//! Readiness checks for a scholarly software release.
//!
//! A `Project` holds what was read of a project directory and its
//! repository. The validators under `validation` look at it and append
//! their findings to a `Report`; `commands::check::run` runs them all. The
//! other modules hold what the remaining commands of the tool decide and
//! compute: settings, the deposit record, names of archive entries,
//! addresses of the deposit service.
//!
//! Regular expressions, YAML and SHA-256 come from the `regex`, `serde_yaml`
//! and `sha2` crates, lower-casing from the standard library. They are
//! called in `pattern`, `yaml`, `archive::checksum` and `text::to_lowercase`,
//! which are the only places where a contract is stated without proof.

pub mod archive;
pub mod commands;
pub mod config;
pub mod metadata;
pub mod pattern;
pub mod project;
pub mod report;
pub mod text;
pub mod validation;
pub mod yaml;
pub mod zenodo;
