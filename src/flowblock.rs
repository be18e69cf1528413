use vstd::prelude::*;
use crate::entity::Entity;
use crate::flowagent::FlowAgent;

verus! {

/// Marker for a station that is processing an agent.
#[derive(Debug)]
pub struct Working;

/// Marker for a station that is empty or freshly reset.
#[derive(Debug)]
pub struct Idle;

/// Marker for a station whose agent is done.
#[derive(Debug)]
pub struct PartDone;

/// A node that agents can be handed to.
pub trait AgentReceiver: Sized {
    /// The agent in the node's first slot.
    spec fn slot(&self) -> Option<FlowAgent>;

    /// `post` is `pre` after `agent` was handed to it.
    spec fn took(pre: &Self, post: &Self, agent: FlowAgent) -> bool;

    /// Accepts `agent` unconditionally; ownership passes to the node.
    fn take_agent(&mut self, agent: FlowAgent)
        ensures
            Self::took(old(self), final(self), agent),
            final(self).slot() == Some(agent),
    ;
}

/// The capabilities every processing node offers, so that the simulation can
/// treat node kinds alike.
pub trait FlowBlock: Entity + AgentReceiver {

    /// `post` is `pre` after processing for `given_time`.
    spec fn processed(pre: &Self, post: &Self, given_time: u64) -> bool;

    /// Processing for `given_time` is allowed in this state.
    spec fn can_process(&self, given_time: u64) -> bool;

    /// `post` is `pre` with its processing duration set and re-armed to `duration`.
    spec fn rearmed(pre: &Self, post: &Self, duration: u64) -> bool;

    /// Hands `agent` to `destination`; this node itself is not touched.
    fn move_agent_to<D: AgentReceiver>(&mut self, agent: FlowAgent, destination: &mut D)
        ensures
            *final(self) == *old(self),
            D::took(old(destination), final(destination), agent),
    ;

    /// Sets the processing duration and re-arms the timer to it.
    fn set_process_time(&mut self, process_time: u64)
        ensures
            Self::rearmed(old(self), final(self), process_time),
    ;

    /// The agent in the slot; `index` is reserved for nodes with more than one slot.
    fn get_agent_by_index_read(&self, index: usize) -> (r: &Option<FlowAgent>)
        ensures
            *r == self.slot(),
    ;

    /// Advances processing by `given_time`.
    fn process(&mut self, given_time: u64)
        requires
            old(self).can_process(given_time),
        ensures
            Self::processed(old(self), final(self), given_time),
    ;
}

} // verus!
