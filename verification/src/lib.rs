//! Coordination protocol for a fleet of worker agents driven by a central
//! orchestrator over a publish/subscribe event bus: message schemas with
//! explicit defaulting rules, the task lifecycle state machine, the pipeline
//! stage state machine, the memory store/query contract, and the task-room
//! streaming protocol.

use vstd::prelude::*;

pub mod config;
pub mod events;
pub mod json;
pub mod roles;
pub mod skill;
pub mod room;
pub mod memory;
pub mod pipeline;
pub mod task;
pub mod text;

verus! {

/// Default page size for `TaskList` requests when the wire message omits
/// `limit`.
pub fn default_task_limit() -> (r: u32)
    ensures
        r == 50u32,
{
    50
}

/// Default page size for `MemoryQuery` requests when the wire message omits
/// `limit`.
pub fn default_memory_limit() -> (r: u32)
    ensures
        r == 20u32,
{
    20
}

} // verus!
