use vstd::prelude::*;
use vstd::string::*;
use rayon::iter::IntoParallelRefMutIterator;
use rayon::iter::ParallelIterator;
use crate::entity::Entity;
use crate::flowagent::FlowAgent;
use crate::flowblock::{AgentReceiver, Idle};
use crate::station_single::{
    empty_station, lemma_can_process_one_kept, lemma_processed_add, StationModel, StationSingle,
};
use crate::time::Time;

verus! {

/// The message of a failed lookup of `name`.
pub open spec fn not_found_message(name: Seq<char>) -> Seq<char> {
    "Could not find Flowblock "@ + name
}

/// `i` is the first position of a block named `name`.
pub open spec fn is_first_named(blocks: Seq<StationSingle<Idle>>, name: Seq<char>, i: int) -> bool {
    &&& 0 <= i < blocks.len()
    &&& blocks[i]@.name == name
    &&& forall|j: int| 0 <= j < i ==> blocks[j]@.name != name
}

/// Some block is named `name`.
pub open spec fn has_named(blocks: Seq<StationSingle<Idle>>, name: Seq<char>) -> bool {
    exists|i: int| 0 <= i < blocks.len() && blocks[i]@.name == name
}

/// Relies on rayon's `par_iter_mut().for_each`: the closure runs exactly once
/// on each element of the vector, and the elements stay in place.
#[verifier::external_body]
fn process_all(blocks: &mut Vec<StationSingle<Idle>>, given_time: u64)
    requires
        forall|i: int| 0 <= i < old(blocks)@.len() ==> (#[trigger] old(blocks)@[i])@.can_process(given_time),
    ensures
        final(blocks)@.len() == old(blocks)@.len(),
        forall|i: int|
            0 <= i < old(blocks)@.len() ==> (#[trigger] final(blocks)@[i])@ == old(blocks)@[i]@.processed(
                given_time,
            ),
{
    blocks.par_iter_mut().for_each(|block| {
        block.process_part(given_time);
    });
}

/// A simulation run: the registered stations, their names, the agents waiting
/// to be injected, and the clock.
pub struct SIM {
    flowblocks: Vec<StationSingle<Idle>>,
    flowblock_names: Vec<String>,
    flowagents: Vec<FlowAgent>,
    time_controller: Time,
}

impl SIM {
    /// The registered stations, in order of registration.
    pub closed spec fn blocks(&self) -> Seq<StationSingle<Idle>> {
        self.flowblocks@
    }

    /// The names used for the uniqueness check, in order of registration.
    pub closed spec fn names(&self) -> Seq<Seq<char>> {
        self.flowblock_names@.map_values(|s: String| s@)
    }

    /// The agents waiting to be injected.
    pub closed spec fn agents(&self) -> Seq<FlowAgent> {
        self.flowagents@
    }

    pub closed spec fn clock(&self) -> Time {
        self.time_controller
    }

    /// Each name belongs to the block at the same position, and no two
    /// blocks share a name.
    pub open spec fn wf(&self) -> bool {
        &&& self.names().len() == self.blocks().len()
        &&& forall|i: int| 0 <= i < self.blocks().len() ==> #[trigger] self.names()[i] == self.blocks()[i]@.name
        &&& forall|i: int, j: int|
            0 <= i < j < self.names().len() ==> #[trigger] self.names()[i] != #[trigger] self.names()[j]
    }

    /// Injection happens when an agent waits and a block exists.
    pub open spec fn seeds(&self) -> bool {
        self.agents().len() > 0 && self.blocks().len() > 0
    }

    /// The blocks' states once the first waiting agent went to the first block.
    pub open spec fn seeded_blocks(&self) -> Seq<StationModel> {
        let models = self.blocks().map_values(|b: StationSingle<Idle>| b@);
        if self.seeds() {
            models.update(0, models[0].with_agent(Some(self.agents()[0])))
        } else {
            models
        }
    }

    /// The waiting agents once injection took place.
    pub open spec fn seeded_agents(&self) -> Seq<FlowAgent> {
        if self.seeds() {
            self.agents().subrange(1, self.agents().len() as int)
        } else {
            self.agents()
        }
    }

    /// An empty simulation with a fresh clock.
    pub fn new() -> (s: SIM)
        ensures
            s.blocks().len() == 0,
            s.names().len() == 0,
            s.agents().len() == 0,
            s.clock().max_steps() == 1,
            s.clock().current_step() == 0,
            s.wf(),
    {
        SIM {
            flowblocks: Vec::new(),
            flowblock_names: Vec::new(),
            flowagents: Vec::new(),
            time_controller: Time::new(),
        }
    }

    /// Appends a block and records its name. Keeping names unique is the
    /// caller's part here; `add_single_station` is the checked way to register
    /// a station.
    pub fn add_flowblock(&mut self, flowblock: StationSingle<Idle>)
        ensures
            final(self).blocks() == old(self).blocks().push(flowblock),
            final(self).names() == old(self).names().push(flowblock@.name),
            final(self).agents() == old(self).agents(),
            final(self).clock() == old(self).clock(),
            old(self).wf() && !has_named(old(self).blocks(), flowblock@.name) ==> final(self).wf(),
    {
        let name = flowblock.get_name();
        self.flowblocks.push(flowblock);
        self.flowblock_names.push(name);
        proof {
            assert(self.names() =~= old(self).names().push(flowblock@.name));
            if old(self).wf() && !has_named(old(self).blocks(), flowblock@.name) {
                let n = old(self).blocks().len() as int;
                assert forall|i: int, j: int|
                    0 <= i < j < self.names().len() implies #[trigger] self.names()[i]
                    != #[trigger] self.names()[j] by {
                    if j == n {
                        assert(old(self).blocks()[i]@.name == old(self).names()[i]);
                    }
                }
            }
        }
    }

    /// The simulation clock.
    pub fn get_time_controller(&self) -> (r: &Time)
        ensures
            *r == self.clock(),
    {
        &self.time_controller
    }

    /// Queues an agent for injection.
    pub fn add_flowagent(&mut self, flowagent: FlowAgent)
        ensures
            final(self).agents() == old(self).agents().push(flowagent),
            final(self).blocks() == old(self).blocks(),
            final(self).names() == old(self).names(),
            final(self).clock() == old(self).clock(),
    {
        self.flowagents.push(flowagent);
    }

    /// The registered stations.
    pub fn get_flowblocks(&self) -> (r: &Vec<StationSingle<Idle>>)
        ensures
            r@ == self.blocks(),
    {
        &self.flowblocks
    }

    /// Some registered block is named `name`.
    fn flowblock_exists(&self, name: &str) -> (r: bool)
        ensures
            r == has_named(self.blocks(), name@),
    {
        self.position_of(name).is_some()
    }

    /// Registers an empty station named `name`. Returns false, and changes
    /// nothing, when a registered block already has that name.
    pub fn add_single_station(&mut self, name: &str) -> (r: bool)
        ensures
            r == !has_named(old(self).blocks(), name@),
            r ==> final(self).names() == old(self).names().push(name@),
            r ==> final(self).blocks().len() == old(self).blocks().len() + 1,
            r ==> final(self).blocks().subrange(0, old(self).blocks().len() as int) == old(
                self,
            ).blocks(),
            r ==> final(self).blocks().last()@ == empty_station(name@),
            !r ==> *final(self) == *old(self),
            final(self).agents() == old(self).agents(),
            final(self).clock() == old(self).clock(),
            old(self).wf() ==> final(self).wf(),
    {
        if self.flowblock_exists(name) {
            return false;
        }
        let station = StationSingle::<Idle>::new(name);
        self.add_flowblock(station);
        proof {
            assert(self.names() =~= old(self).names().push(name@));
            assert(self.blocks().subrange(0, old(self).blocks().len() as int) =~= old(self).blocks());
        }
        true
    }

    /// The position of the first block named `name`.
    fn position_of(&self, name: &str) -> (r: Option<usize>)
        ensures
            r is Some <==> has_named(self.blocks(), name@),
            r matches Some(i) ==> is_first_named(self.blocks(), name@, i as int),
    {
        let key = String::from_str(name);
        let mut i: usize = 0;
        while i < self.flowblocks.len()
            invariant
                i <= self.flowblocks@.len(),
                key@ == name@,
                forall|j: int| 0 <= j < i ==> self.blocks()[j]@.name != name@,
            decreases self.flowblocks@.len() - i,
        {
            if self.flowblocks[i].get_name() == key {
                return Some(i);
            }
            i = i + 1;
        }
        None
    }

    fn not_found(name: &str) -> (e: String)
        ensures
            e@ == not_found_message(name@),
    {
        let prefix = String::from_str("Could not find Flowblock ");
        proof {
            reveal_strlit("Could not find Flowblock ");
        }
        prefix.concat(name)
    }

    /// The first block named `name`, for changing it; fails with a message
    /// carrying the name when there is none, and then changes nothing.
    pub fn get_mut_flowblock_by_name(&mut self, name: &str) -> (r: Result<
        &mut StationSingle<Idle>,
        String,
    >)
        ensures
            r is Ok <==> has_named(old(self).blocks(), name@),
            r matches Ok(b) ==> exists|i: int|
                {
                    &&& is_first_named(old(self).blocks(), name@, i)
                    &&& *b == old(self).blocks()[i]
                    &&& final(self).blocks() == old(self).blocks().update(i, *final(b))
                },
            r matches Ok(b) ==> final(self).names() == old(self).names() && final(self).agents()
                == old(self).agents() && final(self).clock() == old(self).clock(),
            r matches Err(e) ==> e@ == not_found_message(name@) && *final(self) == *old(self),
    {
        match self.position_of(name) {
            Some(i) => Ok(&mut self.flowblocks[i]),
            None => Err(Self::not_found(name)),
        }
    }

    /// The first block named `name`; fails with a message carrying the name
    /// when there is none.
    pub fn get_flowbock_by_name(&self, name: &str) -> (r: Result<&StationSingle<Idle>, String>)
        ensures
            r is Ok <==> has_named(self.blocks(), name@),
            r matches Ok(b) ==> exists|i: int|
                is_first_named(self.blocks(), name@, i) && *b == self.blocks()[i],
            r matches Err(e) ==> e@ == not_found_message(name@),
    {
        match self.position_of(name) {
            Some(i) => Ok(&self.flowblocks[i]),
            None => Err(Self::not_found(name)),
        }
    }

    pub fn set_timesteps(&mut self, timesteps: u64)
        ensures
            final(self).clock().max_steps() == timesteps,
            final(self).clock().current_step() == old(self).clock().current_step(),
            final(self).blocks() == old(self).blocks(),
            final(self).names() == old(self).names(),
            final(self).agents() == old(self).agents(),
    {
        self.time_controller.set_max_time_steps(timesteps);
    }

    /// Injects the first waiting agent into the first registered block, when
    /// both exist; otherwise changes nothing.
    pub fn seed_first_block(&mut self)
        ensures
            final(self).blocks().len() == old(self).blocks().len(),
            forall|i: int|
                0 <= i < old(self).blocks().len() ==> (#[trigger] final(self).blocks()[i])@
                    == old(self).seeded_blocks()[i],
            final(self).agents() == old(self).seeded_agents(),
            final(self).names() == old(self).names(),
            final(self).clock() == old(self).clock(),
    {
        if self.flowagents.len() > 0 && self.flowblocks.len() > 0 {
            let agent = self.flowagents.remove(0);
            self.flowblocks[0].take_agent(agent);
        }
    }

    /// One tick: every block processes one unit of time, then the clock
    /// advances.
    pub fn tick(&mut self)
        requires
            forall|i: int|
                0 <= i < old(self).blocks().len() ==> (#[trigger] old(self).blocks()[i])@.can_process(1),
            old(self).clock().current_step() < u64::MAX,
        ensures
            final(self).blocks().len() == old(self).blocks().len(),
            forall|i: int|
                0 <= i < old(self).blocks().len() ==> (#[trigger] final(self).blocks()[i])@
                    == old(self).blocks()[i]@.processed(1),
            final(self).clock().current_step() == old(self).clock().current_step() + 1,
            final(self).clock().max_steps() == old(self).clock().max_steps(),
            final(self).names() == old(self).names(),
            final(self).agents() == old(self).agents(),
    {
        process_all(&mut self.flowblocks, 1);
        self.time_controller.timestep();
    }

    /// Injects the first waiting agent into the first block, then runs the
    /// configured number of ticks. Ticks never move agents between blocks.
    pub fn run(&mut self)
        requires
            forall|i: int|
                0 <= i < old(self).blocks().len() ==> (#[trigger] old(self).seeded_blocks()[i]).can_process(1),
            old(self).clock().current_step() + old(self).clock().max_steps() <= u64::MAX,
        ensures
            final(self).blocks().len() == old(self).blocks().len(),
            forall|i: int|
                0 <= i < old(self).blocks().len() ==> (#[trigger] final(self).blocks()[i])@
                    == old(self).seeded_blocks()[i].processed(old(self).clock().max_steps()),
            forall|i: int|
                0 <= i < old(self).blocks().len() ==> (#[trigger] final(self).blocks()[i])@.agent
                    == old(self).seeded_blocks()[i].agent,
            final(self).agents() == old(self).seeded_agents(),
            final(self).names() == old(self).names(),
            final(self).clock().current_step() == old(self).clock().current_step() + old(
                self,
            ).clock().max_steps(),
            final(self).clock().max_steps() == old(self).clock().max_steps(),
    {
        self.seed_first_block();
        let ghost start = self.blocks().map_values(|b: StationSingle<Idle>| b@);
        let ghost start_step = self.clock().current_step();
        let max = self.time_controller.get_max_time_steps();
        let mut k: u64 = 0;
        while k < max
            invariant
                k <= max,
                max == self.clock().max_steps(),
                start_step + max <= u64::MAX,
                self.clock().current_step() == start_step + k,
                start.len() == self.blocks().len(),
                forall|i: int| 0 <= i < start.len() ==> #[trigger] start[i].can_process(1),
                forall|i: int|
                    0 <= i < start.len() ==> (#[trigger] self.blocks()[i])@ == start[i].processed(k),
                self.names() == old(self).names(),
                self.agents() == old(self).seeded_agents(),
            decreases max - k,
        {
            assert forall|i: int| 0 <= i < self.blocks().len() implies (#[trigger] self.blocks()[i])@.can_process(1) by {
                lemma_can_process_one_kept(start[i], k);
            }
            self.tick();
            assert forall|i: int| 0 <= i < start.len() implies (#[trigger] self.blocks()[i])@ == start[i].processed((k + 1) as u64) by {
                lemma_processed_add(start[i], k, 1);
            }
            k = k + 1;
        }
    }
}

} // verus!
