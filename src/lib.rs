pub mod entity;
pub mod flowagent;
pub mod flowblock;
pub mod processor;
pub mod sim;
pub mod station_single;
pub mod time;

pub use entity::Entity;
pub use flowagent::FlowAgent;
pub use flowblock::{AgentReceiver, FlowBlock, Idle, PartDone, Working};
pub use processor::ProcessorSingle;
pub use sim::SIM;
pub use station_single::{StationPhase, StationSingle};
pub use time::Time;

use vstd::prelude::*;

verus! {

/// The sum of two sizes.
pub fn add(left: usize, right: usize) -> (r: usize)
    requires
        left + right <= usize::MAX,
    ensures
        r == left + right,
{
    left + right
}

/// Creates an empty simulation, ready for stations and agents to be added.
pub fn create_simulation() -> (s: SIM)
    ensures
        s.blocks().len() == 0,
        s.names().len() == 0,
        s.agents().len() == 0,
        s.clock().max_steps() == 1,
        s.clock().current_step() == 0,
        s.wf(),
{
    SIM::new()
}

} // verus!
