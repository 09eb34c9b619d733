//! Memory, routine and reflex tools.

use vstd::prelude::*;

pub mod a11y_events;
pub mod activity_recorder;
pub mod armed_routines;
pub mod events;
pub mod intent;
pub mod interaction_cadence;
pub mod permissions;
pub mod reflex;
pub mod routine_index;
pub mod routines;
pub mod suggestions;
pub mod timeline;

verus! {

/// The registration entry of a tool.
#[derive(Clone, Copy, Debug, PartialEq, Eq)]
pub struct M3ToolStub {
    pub name: &'static str,
}

impl M3ToolStub {
    pub fn new(name: &'static str) -> (r: M3ToolStub)
        ensures
            r.name@ == name@,
    {
        M3ToolStub { name }
    }
}

} // verus!
