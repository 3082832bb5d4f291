//! The validators. Each one reads a `Project` and appends its findings to a
//! `Report`; none of them calls another.

pub mod citation;
pub mod files;
pub mod git;
pub mod gitignore;
pub mod history;
pub mod security;
pub mod size;
