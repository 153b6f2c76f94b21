//! The history record.

pub mod hooks;
pub mod model;
pub mod timestamp;
