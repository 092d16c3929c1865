//! The messages that cross the boundary.

pub mod gpyrpc;
