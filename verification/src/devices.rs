//! The devices the program knows.

pub mod airpods;
pub mod enums;
pub mod state;
