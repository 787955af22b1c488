use vstd::prelude::*;

use crate::level::Level;

verus! {

/// What a node reads of a record: its severity and the target it came from.
#[derive(Debug)]
pub struct Metadata {
    pub level: Level,
    pub target: String,
}

impl Metadata {
    /// Metadata of a record of level `level` from `target`.
    pub fn new(level: Level, target: &str) -> (r: Metadata)
        ensures
            r.level == level,
            r.target@ == target@,
    {
        Metadata { level, target: String::from_str(target) }
    }
}

} // verus!
