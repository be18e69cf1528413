use vstd::prelude::*;
use vstd::string::*;
use crate::entity::Entity;
use crate::flowagent::FlowAgent;
use crate::flowblock::{AgentReceiver, FlowBlock, Idle};
use crate::processor::ProcessorSingle;

verus! {

/// Time left on a working agent after `given` more units of processing.
pub open spec fn remaining_after(remaining: u64, given: u64) -> u64 {
    if given >= remaining {
        0
    } else {
        (remaining - given) as u64
    }
}

/// The part of `given` that a working agent with `remaining` time does not use.
pub open spec fn leftover(remaining: u64, given: u64) -> u64 {
    if given >= remaining {
        (given - remaining) as u64
    } else {
        0
    }
}

/// The state of a single-capacity station, as the contracts see it.
pub struct StationModel {
    pub name: Seq<char>,
    pub id: u32,
    pub duration: u64,
    pub remaining: u64,
    pub agent: Option<FlowAgent>,
}

impl StationModel {
    /// An agent is held and its time is used up.
    pub open spec fn part_done(self) -> bool {
        self.agent.is_some() && self.remaining == 0
    }

    /// The station after `given` units of processing: only a held agent with
    /// time left is worked on.
    pub open spec fn processed(self, given: u64) -> StationModel {
        if self.agent.is_some() {
            StationModel { remaining: remaining_after(self.remaining, given), ..self }
        } else {
            self
        }
    }

    /// Processing for `given` units keeps the remaining time within the
    /// configured duration (it can only fail to after the duration was lowered
    /// below the remaining time).
    pub open spec fn can_process(self, given: u64) -> bool {
        self.agent.is_some() && self.remaining > given ==> self.remaining - given <= self.duration
    }

    /// What `process_part` hands back for `given` units of processing.
    pub open spec fn unused(self, given: u64) -> u64 {
        if self.agent.is_some() {
            leftover(self.remaining, given)
        } else {
            given
        }
    }

    pub open spec fn with_agent(self, agent: Option<FlowAgent>) -> StationModel {
        StationModel { agent, ..self }
    }

    pub open spec fn with_remaining(self, remaining: u64) -> StationModel {
        StationModel { remaining, ..self }
    }

    pub open spec fn with_duration(self, duration: u64) -> StationModel {
        StationModel { duration, ..self }
    }
}

/// Processing for `a` units and then for `b` units is processing for `a + b` units.
pub proof fn lemma_processed_add(m: StationModel, a: u64, b: u64)
    requires
        a + b <= u64::MAX,
    ensures
        m.processed(a).processed(b) == m.processed((a + b) as u64),
{
}

/// A station that may process one unit may do so again after any amount of
/// processing.
pub proof fn lemma_can_process_one_kept(m: StationModel, k: u64)
    ensures
        m.can_process(1) ==> m.processed(k).can_process(1),
{
}

/// The total of a run of processing amounts.
pub open spec fn total(ts: Seq<u64>) -> int
    decreases ts.len(),
{
    if ts.len() == 0 {
        0
    } else {
        ts[0] + total(ts.drop_first())
    }
}

/// The station after processing for each amount of `ts` in turn.
pub open spec fn processed_all(m: StationModel, ts: Seq<u64>) -> StationModel
    decreases ts.len(),
{
    if ts.len() == 0 {
        m
    } else {
        processed_all(m.processed(ts[0]), ts.drop_first())
    }
}

/// Processing in several calls takes the remaining time down by their total,
/// to no less than zero, and changes nothing else.
pub proof fn lemma_processed_all(m: StationModel, ts: Seq<u64>)
    ensures
        total(ts) >= 0,
        m.agent.is_none() ==> processed_all(m, ts) == m,
        m.agent.is_some() ==> processed_all(m, ts) == m.with_remaining(
            if total(ts) >= m.remaining {
                0
            } else {
                (m.remaining - total(ts)) as u64
            },
        ),
    decreases ts.len(),
{
    if ts.len() > 0 {
        lemma_processed_all(m.processed(ts[0]), ts.drop_first());
    }
}

/// A held agent whose remaining time is within the configured duration is done
/// after processing amounts that add up to that duration, in one call or many.
pub proof fn lemma_full_duration_finishes(m: StationModel, ts: Seq<u64>)
    requires
        m.agent.is_some(),
        m.remaining <= m.duration,
        total(ts) == m.duration,
    ensures
        processed_all(m, ts).part_done(),
{
    lemma_processed_all(m, ts);
}

/// A held agent armed with the full duration `D` is not done after processing
/// amounts that add up to `t < D`, and has `D - t` left.
pub proof fn lemma_partial_duration_leaves_rest(m: StationModel, ts: Seq<u64>)
    requires
        m.agent.is_some(),
        m.remaining == m.duration,
        total(ts) < m.duration,
    ensures
        !processed_all(m, ts).part_done(),
        processed_all(m, ts).remaining == m.duration - total(ts),
{
    lemma_processed_all(m, ts);
}

/// Removing the agent and then re-arming leaves an empty station with the
/// full configured duration remaining, whatever the state before.
pub proof fn lemma_remove_then_reset(m: StationModel)
    ensures
        ({
            let removed = m.with_agent(None).with_remaining(m.duration);
            let reset = removed.with_remaining(removed.duration);
            &&& reset.agent.is_none()
            &&& reset.remaining == m.duration
            &&& reset.duration == m.duration
        }),
{
}

/// Setting the remaining time to zero on a done station keeps it done.
pub proof fn lemma_zero_remaining_keeps_done(m: StationModel)
    requires
        m.part_done(),
    ensures
        m.with_remaining(0).part_done(),
        m.with_remaining(0) == m,
{
}

/// A freshly made station named `name`: no agent, duration and remaining time 0.
pub open spec fn empty_station(name: Seq<char>) -> StationModel {
    StationModel { name, id: 0, duration: 0, remaining: 0, agent: None }
}

/// Where a station stands in its lifecycle.
pub enum StationPhase {
    /// No agent held.
    Idle,
    /// An agent is held and has time left.
    Working,
    /// An agent is held and its time is used up.
    PartDone,
}

/// A station that holds at most one agent and times its processing. The type
/// parameter is a marker only; the phase that matters is derived from the
/// held agent and the remaining time.
#[derive(Debug)]
pub struct StationSingle<State> {
    name: String,
    id: u32,
    processor: ProcessorSingle,
    agent: Option<FlowAgent>,
    _state: core::marker::PhantomData<State>,
}

impl<State> View for StationSingle<State> {
    type V = StationModel;

    closed spec fn view(&self) -> StationModel {
        StationModel {
            name: self.name@,
            id: self.id,
            duration: self.processor.duration(),
            remaining: self.processor.remaining(),
            agent: self.agent,
        }
    }
}

impl<State> Entity for StationSingle<State> {
    open spec fn name_view(&self) -> Seq<char> {
        self@.name
    }

    open spec fn id_view(&self) -> u32 {
        self@.id
    }

    fn get_name(&self) -> (r: String) {
        self.name.clone()
    }

    fn get_id(&self) -> (r: u32) {
        self.id
    }
}

impl StationSingle<Idle> {
    /// An empty station named `name`, with duration and remaining time 0.
    pub fn new(name: &str) -> (s: StationSingle<Idle>)
        ensures
            s@ == empty_station(name@),
    {
        StationSingle {
            name: String::from_str(name),
            id: 0,
            processor: ProcessorSingle::new(),
            agent: None,
            _state: core::marker::PhantomData,
        }
    }
}

impl<State> StationSingle<State> {
    /// Processes the held agent for `given_time` and returns the part of it
    /// that was not needed: all of it when no agent is held or the agent is
    /// already done.
    pub fn process_part(&mut self, given_time: u64) -> (r: u64)
        requires
            old(self)@.can_process(given_time),
        ensures
            final(self)@ == old(self)@.processed(given_time),
            r == old(self)@.unused(given_time),
    {
        if self.agent.is_none() {
            return given_time;
        }
        if self.part_done() {
            return given_time;
        }
        let task_remaining_time = self.processor.get_remaining_time();
        if given_time >= task_remaining_time {
            self.processor.set_remaining_time(0);
            given_time - task_remaining_time
        } else {
            self.processor.set_remaining_time(task_remaining_time - given_time);
            0
        }
    }

    /// Sets the configured duration only; the remaining time is left as it is.
    pub fn set_process_time(&mut self, time: u64)
        ensures
            final(self)@ == old(self)@.with_duration(time),
    {
        self.processor.set_process_time(time);
    }

    /// Marks the held agent's processing as finished.
    pub fn end_process(&mut self)
        ensures
            final(self)@ == old(self)@.with_remaining(0),
    {
        self.processor.set_remaining_time(0);
    }

    /// Puts `agent` in the slot, replacing any agent held before.
    pub fn take(&mut self, agent: FlowAgent)
        ensures
            final(self)@ == old(self)@.with_agent(Some(agent)),
    {
        self.agent = Some(agent);
    }

    pub fn part_done(&self) -> (r: bool)
        ensures
            r == self@.part_done(),
    {
        self.processor.get_remaining_time() == 0 && self.agent.is_some()
    }

    /// Empties the slot and re-arms the timer to the configured duration.
    pub fn remove_agent(&mut self)
        ensures
            final(self)@ == old(self)@.with_agent(None).with_remaining(old(self)@.duration),
    {
        self.agent = None;
        self.reset_process_time();
    }

    /// Re-arms the timer to the configured duration.
    pub fn reset_process_time(&mut self)
        ensures
            final(self)@ == old(self)@.with_remaining(old(self)@.duration),
    {
        let d = self.processor.get_process_time();
        self.processor.set_remaining_time(d);
    }

    /// Sets the remaining time. A value above the configured duration is a
    /// programming error.
    pub fn set_remaining(&mut self, time: u64)
        requires
            time <= old(self)@.duration,
        ensures
            final(self)@ == old(self)@.with_remaining(time),
            final(self)@.remaining <= final(self)@.duration,
    {
        self.processor.set_remaining_time(time);
    }

    pub fn get_remaining(&self) -> (r: u64)
        ensures
            r == self@.remaining,
    {
        self.processor.get_remaining_time()
    }

    pub fn get_process_time(&self) -> (r: u64)
        ensures
            r == self@.duration,
    {
        self.processor.get_process_time()
    }

    /// The station's phase, derived from the held agent and the remaining time.
    pub fn phase(&self) -> (r: StationPhase)
        ensures
            r is Idle <==> self@.agent.is_none(),
            r is PartDone <==> self@.part_done(),
            r is Working <==> (self@.agent.is_some() && self@.remaining > 0),
    {
        if self.agent.is_none() {
            StationPhase::Idle
        } else if self.processor.get_remaining_time() == 0 {
            StationPhase::PartDone
        } else {
            StationPhase::Working
        }
    }

    /// Hands the held agent to `destination` and leaves this station empty;
    /// with no agent held nothing changes.
    pub fn move_first_agent_to<D: AgentReceiver>(&mut self, destination: &mut D)
        ensures
            old(self)@.agent.is_none() ==> final(self)@ == old(self)@ && *final(destination)
                == *old(destination),
            old(self)@.agent.is_some() ==> final(self)@ == old(self)@.with_agent(None)
                && D::took(old(destination), final(destination), old(self)@.agent.unwrap()),
    {
        let taken = self.agent.take();
        match taken {
            Some(agent) => {
                destination.take_agent(agent);
            },
            None => {},
        }
    }
}

impl<State> AgentReceiver for StationSingle<State> {
    open spec fn slot(&self) -> Option<FlowAgent> {
        self@.agent
    }

    open spec fn took(pre: &Self, post: &Self, agent: FlowAgent) -> bool {
        post@ == pre@.with_agent(Some(agent))
    }

    fn take_agent(&mut self, agent: FlowAgent) {
        self.agent = Some(agent);
    }
}

impl<State> FlowBlock for StationSingle<State> {
    open spec fn processed(pre: &Self, post: &Self, given_time: u64) -> bool {
        post@ == pre@.processed(given_time)
    }

    open spec fn can_process(&self, given_time: u64) -> bool {
        self@.can_process(given_time)
    }

    open spec fn rearmed(pre: &Self, post: &Self, duration: u64) -> bool {
        post@ == pre@.with_duration(duration).with_remaining(duration)
    }

    fn move_agent_to<D: AgentReceiver>(&mut self, agent: FlowAgent, destination: &mut D) {
        destination.take_agent(agent);
    }

    fn set_process_time(&mut self, process_time: u64) {
        self.processor.set_process_time(process_time);
        self.processor.set_remaining_time(process_time);
    }

    fn get_agent_by_index_read(&self, index: usize) -> (r: &Option<FlowAgent>) {
        &self.agent
    }

    fn process(&mut self, given_time: u64) {
        self.process_part(given_time);
    }
}

} // verus!
