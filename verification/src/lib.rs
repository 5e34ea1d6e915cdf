//! Named, OS-backed shared-memory segments: a verified model of one
//! process's view of a fixed-capacity byte region, the trailing-zero
//! write/read convention on it, and the acquisition and teardown
//! protocol an OS backend must follow.

pub mod errors;
pub mod lifecycle;
pub mod region;
pub mod segment;
pub mod text;
