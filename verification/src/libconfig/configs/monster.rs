//! The monster configuration.
use vstd::prelude::*;
use crate::libconfig::IConfig;

verus! {

/// One monster of the configuration; a missing id reads as 0.
#[derive(Debug, Clone, Default)]
pub struct MonsterConfig {
    pub id: i32,
}

impl IConfig for MonsterConfig {
    /// The id as an unsigned number (a negative id wraps around).
    fn id(&self) -> (r: u32)
        ensures
            r == self.id as u32,
    {
        self.id as u32
    }
}

} // verus!
