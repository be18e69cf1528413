use vstd::prelude::*;
use vstd::string::*;
use crate::entity::Entity;

verus! {

/// The name every freshly made agent carries.
pub open spec fn default_agent_name() -> Seq<char> {
    seq!['F', 'l', 'o', 'w', 'A', 'g', 'e', 'n', 't']
}

/// A unit of work that moves through the line. Agents are owned by exactly one
/// holder at a time and are never duplicated.
#[derive(Debug)]
pub struct FlowAgent {
    name: String,
    id: u32,
}

impl FlowAgent {
    /// A new agent named "FlowAgent" with id 0.
    pub fn new() -> (a: FlowAgent)
        ensures
            a.name_view() == default_agent_name(),
            a.id_view() == 0,
    {
        let name = String::from_str("FlowAgent");
        proof {
            reveal_strlit("FlowAgent");
            assert(name@ =~= default_agent_name());
        }
        FlowAgent { name, id: 0 }
    }
}

impl Entity for FlowAgent {
    closed spec fn name_view(&self) -> Seq<char> {
        self.name@
    }

    closed spec fn id_view(&self) -> u32 {
        self.id
    }

    fn get_name(&self) -> (r: String) {
        self.name.clone()
    }

    fn get_id(&self) -> (r: u32) {
        self.id
    }
}

} // verus!
