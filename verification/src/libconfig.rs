//! Configuration records read from the game's data files.
use vstd::prelude::*;

pub mod configs;

verus! {

/// A configuration record that is found by its id.
pub trait IConfig {
    /// The record's id.
    fn id(&self) -> u32;
}

} // verus!
