//! Helpers that compiled programs link against.

pub mod checksum;
pub mod collections;
