use flowsim::{create_simulation, FlowAgent, FlowBlock, Time, SIM};

fn setup() -> SIM {
    let mut sim = SIM::new();
    sim.set_timesteps(11);
    sim.add_single_station("Groot");
    sim.add_single_station("Am");

    let block = sim
        .get_mut_flowblock_by_name("Groot")
        .expect("main::Could not find Station Groot.");
    FlowBlock::set_process_time(block, 10);

    let flowagent = FlowAgent::new();
    sim.add_flowagent(flowagent);

    sim.run();

    return sim;
}

#[test]
fn it_works() {
    let result = flowsim::add(2, 2);
    assert_eq!(result, 4);
}

#[test]
fn test_takting() {
    let sim = setup();

    println!("{:#?}", sim.get_flowblocks());
}

#[test]
fn test_takt() {
    let mut sim = SIM::new();
    sim.set_timesteps(11);
    sim.add_single_station("Groot");
    sim.add_single_station("Am");

    let block = sim
        .get_mut_flowblock_by_name("Groot")
        .expect("main::Could not find Station Groot.");
    FlowBlock::set_process_time(block, 10);

    let flowagent = FlowAgent::new();
    sim.add_flowagent(flowagent);

    sim.run();
    println!("{:#?}", sim.get_flowblocks());

    // ticks alone never relocate the agent: it stays in "Groot"
    assert!(sim
        .get_flowbock_by_name("Am")
        .expect("Could not find Station Am")
        .get_agent_by_index_read(0)
        .is_none());
    let groot = sim
        .get_flowbock_by_name("Groot")
        .expect("main::Could not find Station Groot.");
    assert!(groot.get_agent_by_index_read(0).is_some());
    assert!(groot.part_done());
}

#[test]
fn three_ticks_finish_a_three_unit_part() {
    let mut sim = create_simulation();
    assert!(sim.add_single_station("Only"));
    FlowBlock::set_process_time(sim.get_mut_flowblock_by_name("Only").unwrap(), 3);
    sim.add_flowagent(FlowAgent::new());
    sim.seed_first_block();
    sim.tick();
    assert!(!sim.get_flowbock_by_name("Only").unwrap().part_done());
    sim.tick();
    assert!(!sim.get_flowbock_by_name("Only").unwrap().part_done());
    assert_eq!(sim.get_flowbock_by_name("Only").unwrap().get_remaining(), 1);
    sim.tick();
    assert!(sim.get_flowbock_by_name("Only").unwrap().part_done());
}

#[test]
fn run_of_three_ticks_finishes_part() {
    let mut sim = create_simulation();
    sim.add_single_station("Only");
    FlowBlock::set_process_time(sim.get_mut_flowblock_by_name("Only").unwrap(), 3);
    sim.add_flowagent(FlowAgent::new());
    sim.set_timesteps(2);
    sim.run();
    assert!(!sim.get_flowbock_by_name("Only").unwrap().part_done());
    assert_eq!(sim.get_flowbock_by_name("Only").unwrap().get_remaining(), 1);
}

#[test]
fn run_processes_every_block_in_parallel() {
    let mut sim = create_simulation();
    sim.add_single_station("A");
    sim.add_single_station("B");
    FlowBlock::set_process_time(sim.get_mut_flowblock_by_name("A").unwrap(), 5);
    let b = sim.get_mut_flowblock_by_name("B").unwrap();
    FlowBlock::set_process_time(b, 6);
    b.take(FlowAgent::new());
    sim.add_flowagent(FlowAgent::new());
    sim.set_timesteps(4);
    sim.run();
    assert_eq!(sim.get_flowbock_by_name("A").unwrap().get_remaining(), 1);
    assert_eq!(sim.get_flowbock_by_name("B").unwrap().get_remaining(), 2);
}

#[test]
fn duplicate_station_name_is_refused() {
    let mut sim = create_simulation();
    assert!(sim.add_single_station("Groot"));
    assert!(!sim.add_single_station("Groot"));
    assert_eq!(sim.get_flowblocks().len(), 1);
    assert!(sim.add_single_station("Am"));
    assert_eq!(sim.get_flowblocks().len(), 2);
}

#[test]
fn missing_block_lookup_fails_with_name() {
    let mut sim = create_simulation();
    sim.add_single_station("Groot");
    let err = sim.get_flowbock_by_name("Am").err().unwrap();
    assert_eq!(err, "Could not find Flowblock Am");
    let err = sim.get_mut_flowblock_by_name("Nope").err().unwrap();
    assert_eq!(err, "Could not find Flowblock Nope");
    assert!(sim.get_flowbock_by_name("Groot").is_ok());
}

#[test]
fn run_without_agents_seeds_nothing() {
    let mut sim = create_simulation();
    sim.add_single_station("Groot");
    sim.set_timesteps(3);
    sim.run();
    assert!(sim
        .get_flowbock_by_name("Groot")
        .unwrap()
        .get_agent_by_index_read(0)
        .is_none());
}

#[test]
fn clock_counts_past_budget() {
    let mut time = Time::new();
    assert_eq!(time.get_max_time_steps(), 1);
    assert_eq!(time.get_current_time_step(), 0);
    assert!(!time.is_finished());
    time.timestep();
    assert!(time.is_finished());
    time.timestep();
    assert_eq!(time.get_current_time_step(), 2);
    assert!(time.is_finished());
    time.set_max_time_steps(5);
    assert_eq!(time.get_max_time_steps(), 5);
    assert!(!time.is_finished());
}

#[test]
fn name_of_added_block_cannot_be_registered_again() {
    let mut sim = create_simulation();
    sim.add_flowblock(flowsim::StationSingle::new("Groot"));
    assert!(!sim.add_single_station("Groot"));
    assert_eq!(sim.get_flowblocks().len(), 1);
    assert!(sim.add_single_station("Am"));
    assert_eq!(sim.get_flowblocks().len(), 2);
}
