//! The configuration records, one module each.
pub mod monster;
