//! The metadata of a release: the citation file as it is read, and the
//! deposit record that is made from it.

pub mod citation;
pub mod zenodo;
