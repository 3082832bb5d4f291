//! What goes into a release archive, and its checksum.

pub mod checksum;
pub mod tarball;
