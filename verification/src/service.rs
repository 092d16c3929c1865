//! The service handle and the boundary around it.

pub mod api;
pub mod buffer;
pub mod laws;
pub mod path;
pub mod protocol;
pub mod service;
