//! Verified helpers for reading and building text.

pub mod chars;
pub mod decimal;
