//! The stars of the night sky.

pub mod catalog;
