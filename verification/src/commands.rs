//! What the commands of the tool decide and compute, apart from the reading
//! and sending that surrounds it.

pub mod check;
pub mod mirror;
pub mod publish;
