use coffee_maker::latency::{LatencySource, ScriptedLatency, ThreadRngLatency};
use coffee_maker::machine_components::{Machine, Size};
use coffee_maker::message_based::{serve, Cup, TIMEOUT};
use coffee_maker::pipeline::Pipeline;
use coffee_maker::stage::{Stage, StageState};
use coffee_maker::station::Station;

const STAGES: [Stage; 5] = [
    Stage::GrindCoffee,
    Stage::DispenseWater,
    Stage::PressEspresso,
    Stage::HeatMilk,
    Stage::FrothMilk,
];

const NAMES: [&str; 5] = ["Josh", "Sharon", "Moobly", "Tosh", "Mary"];

fn script(latencies: &[u64]) -> ScriptedLatency {
    ScriptedLatency::new(latencies.to_vec()).unwrap()
}

fn batch(size: Size) -> Vec<Cup> {
    NAMES.iter().map(|name| Cup::new(size, name.to_string())).collect()
}

fn successes(stage: Stage, clients: &[usize]) -> Vec<String> {
    clients.iter().map(|client| stage.success_line(*client)).collect()
}

#[test]
fn a_new_station_waits_with_nothing_to_do() {
    let station = Station::new(Stage::HeatMilk, 101);
    assert_eq!(station.state(), StageState::Running);
    assert_eq!(station.waiting(), 0);
    assert!(station.lines().is_empty());
}

#[test]
fn a_relay_station_works_off_its_inbox_in_order() {
    let machine = Machine::new();
    let mut source = script(&[10]);
    let mut grind = Station::new(Stage::GrindCoffee, 101);
    let mut water = Station::new(Stage::DispenseWater, 101);
    assert_eq!(grind.send((0, Some(Size::Small))), Ok(()));
    assert_eq!(grind.send((1, Some(Size::Large))), Ok(()));
    assert_eq!(grind.send((2, Some(Size::Medium))), Ok(()));
    assert_eq!(grind.waiting(), 3);
    grind.run_relay(&mut water, &machine, &mut source);
    assert_eq!(
        *grind.lines(),
        vec![
            "Coffee Ground for Client 0!".to_string(),
            "Not enough coffee beans in CoffeeHopper".to_string(),
            "Coffee Ground for Client 2!".to_string(),
        ]
    );
    assert_eq!(grind.waiting(), 0);
    assert_eq!(grind.state(), StageState::Running);
    assert_eq!(water.waiting(), 2);
    assert!(water.lines().is_empty());
    let mut press = Station::new(Stage::PressEspresso, 101);
    water.run_relay(&mut press, &machine, &mut source);
    assert_eq!(
        *water.lines(),
        vec![
            "Water Dispensed for Client 0!".to_string(),
            "Water Dispensed for Client 2!".to_string(),
        ]
    );
    assert_eq!(press.waiting(), 2);
    press.run_sink(&machine, &mut source);
    assert_eq!(
        *press.lines(),
        vec![
            "Espresso Pressed for Client 0!".to_string(),
            "Espresso Pressed for Client 2!".to_string(),
        ]
    );
    assert_eq!(press.state(), StageState::Running);
}

#[test]
fn a_station_makes_one_probe_for_each_message() {
    let machine = Machine::new();
    let mut source = script(&[10, 60, 10, 60, 99]);
    let mut milk = Station::new(Stage::HeatMilk, 50);
    let mut froth = Station::new(Stage::FrothMilk, 50);
    for client in 0..4 {
        assert_eq!(milk.send((client, Some(Size::Small))), Ok(()));
    }
    milk.run_relay(&mut froth, &machine, &mut source);
    assert_eq!(
        *milk.lines(),
        vec![
            "Milk heated for Client 0!".to_string(),
            "MilkTank Component Not Responding".to_string(),
            "Milk heated for Client 2!".to_string(),
            "MilkTank Component Not Responding".to_string(),
        ]
    );
    assert_eq!(froth.waiting(), 2);
    assert_eq!(source.next_latency(), 99);
}

#[test]
fn a_closed_station_is_done_once_its_inbox_is_worked_off() {
    let machine = Machine::new();
    let mut source = script(&[10]);
    let mut milk = Station::new(Stage::HeatMilk, 101);
    let mut froth = Station::new(Stage::FrothMilk, 101);
    assert_eq!(milk.send((0, Some(Size::Medium))), Ok(()));
    milk.close();
    assert_eq!(milk.state(), StageState::Running);
    milk.run_relay(&mut froth, &machine, &mut source);
    assert_eq!(milk.state(), StageState::Drained);
    assert_eq!(*milk.lines(), vec!["Milk heated for Client 0!".to_string()]);
    assert_eq!(froth.waiting(), 1);
    assert_eq!(froth.state(), StageState::Running);
    froth.run_sink(&machine, &mut source);
    assert_eq!(froth.state(), StageState::Drained);
    assert_eq!(*froth.lines(), vec!["Milk frothed for Client 0!".to_string()]);
}

#[test]
fn a_station_that_is_done_takes_nothing_more() {
    let machine = Machine::new();
    let mut source = script(&[10]);
    let mut press = Station::new(Stage::PressEspresso, 101);
    press.close();
    press.run_sink(&machine, &mut source);
    assert_eq!(press.state(), StageState::Drained);
    assert_eq!(press.send((1, None)), Err("sending on a closed channel".to_string()));
    assert_eq!(press.waiting(), 0);
    press.run_sink(&machine, &mut source);
    assert_eq!(press.state(), StageState::Drained);
    assert!(press.lines().is_empty());
}

#[test]
fn a_relay_tells_of_a_successor_that_is_gone() {
    let machine = Machine::new();
    let mut source = script(&[10]);
    let mut froth = Station::new(Stage::FrothMilk, 101);
    froth.close();
    froth.run_sink(&machine, &mut source);
    assert_eq!(froth.state(), StageState::Drained);
    let mut milk = Station::new(Stage::HeatMilk, 101);
    assert_eq!(milk.send((0, Some(Size::Small))), Ok(()));
    assert_eq!(milk.send((1, Some(Size::Large))), Ok(()));
    milk.run_relay(&mut froth, &machine, &mut source);
    assert_eq!(
        *milk.lines(),
        vec![
            "sending on a closed channel".to_string(),
            "Not enough milk in MilkTank".to_string(),
        ]
    );
    assert_eq!(milk.state(), StageState::Running);
    assert_eq!(froth.waiting(), 0);
}

#[test]
fn a_stage_with_a_successor_but_no_station_behind_it_cannot_send() {
    let machine = Machine::new();
    let mut source = script(&[10]);
    let mut grind = Station::new(Stage::GrindCoffee, 101);
    assert_eq!(grind.send((0, Some(Size::Small))), Ok(()));
    assert_eq!(grind.send((1, Some(Size::Large))), Ok(()));
    grind.close();
    grind.run_sink(&machine, &mut source);
    assert_eq!(
        *grind.lines(),
        vec![
            "sending on a closed channel".to_string(),
            "Not enough coffee beans in CoffeeHopper".to_string(),
        ]
    );
    assert!(grind.is_drained());
}

#[test]
fn a_last_stage_sends_nothing_to_a_station_behind_it() {
    let machine = Machine::new();
    let mut source = script(&[10]);
    let mut press = Station::new(Stage::PressEspresso, 101);
    let mut other = Station::new(Stage::FrothMilk, 101);
    assert_eq!(press.send((0, None)), Ok(()));
    press.close();
    press.run_relay(&mut other, &machine, &mut source);
    assert_eq!(*press.lines(), vec!["Espresso Pressed for Client 0!".to_string()]);
    assert!(press.is_drained());
    assert_eq!(other.waiting(), 0);
    other.run_sink(&machine, &mut source);
    assert!(other.is_drained());
}

#[test]
fn a_new_line_waits_at_every_stage() {
    let line = Pipeline::new(Machine::new(), TIMEOUT);
    assert!(!line.released());
    assert_eq!(line.timeout(), 101);
    assert_eq!(*line.machine(), Machine::new());
    for stage in STAGES {
        assert_eq!(line.at(stage).state(), StageState::Running);
        assert_eq!(line.at(stage).waiting(), 0);
        assert!(line.at(stage).lines().is_empty());
    }
}

#[test]
fn an_open_line_works_off_its_orders_and_waits_for_more() {
    let mut line = Pipeline::new(Machine::new(), TIMEOUT);
    let mut source = ThreadRngLatency::new();
    assert_eq!(
        line.start(0, Size::Medium),
        vec!["Client 0 Coffee Beans Started!".to_string(), "Client 0 Milk Started!".to_string()]
    );
    assert_eq!(line.at(Stage::GrindCoffee).waiting(), 1);
    assert_eq!(line.at(Stage::HeatMilk).waiting(), 1);
    line.run(&mut source);
    assert!(!line.released());
    for stage in STAGES {
        assert_eq!(line.at(stage).state(), StageState::Running);
        assert_eq!(line.at(stage).waiting(), 0);
        assert_eq!(*line.at(stage).lines(), successes(stage, &[0]));
    }
    line.start(1, Size::Small);
    line.run(&mut source);
    for stage in STAGES {
        assert_eq!(*line.at(stage).lines(), successes(stage, &[0, 1]));
    }
    line.close_entries();
    line.run(&mut source);
    assert!(line.released());
    for stage in STAGES {
        assert_eq!(*line.at(stage).lines(), successes(stage, &[0, 1]));
    }
}

#[test]
fn the_stations_may_be_run_in_any_order() {
    let mut line = Pipeline::new(Machine::new(), TIMEOUT);
    let mut source = ThreadRngLatency::new();
    line.start(0, Size::Small);
    line.start(1, Size::Medium);
    // The frother and the press first: nothing has reached them yet.
    line.run_stage(Stage::FrothMilk, &mut source);
    line.run_stage(Stage::PressEspresso, &mut source);
    assert!(line.at(Stage::FrothMilk).lines().is_empty());
    assert!(line.at(Stage::PressEspresso).lines().is_empty());
    line.run_stage(Stage::HeatMilk, &mut source);
    assert_eq!(line.at(Stage::FrothMilk).waiting(), 2);
    line.run_stage(Stage::GrindCoffee, &mut source);
    assert_eq!(line.at(Stage::DispenseWater).waiting(), 2);
    line.start(2, Size::Small);
    line.close_entries();
    line.run_stage(Stage::DispenseWater, &mut source);
    assert_eq!(line.at(Stage::DispenseWater).state(), StageState::Running);
    line.run_stage(Stage::FrothMilk, &mut source);
    line.run_stage(Stage::GrindCoffee, &mut source);
    assert_eq!(line.at(Stage::GrindCoffee).state(), StageState::Drained);
    assert_eq!(line.at(Stage::FrothMilk).state(), StageState::Running);
    assert!(!line.released());
    line.run(&mut source);
    assert!(line.released());
    for stage in STAGES {
        assert_eq!(*line.at(stage).lines(), successes(stage, &[0, 1, 2]));
    }
}

#[test]
fn a_stage_run_alone_when_done_does_nothing() {
    let mut line = Pipeline::new(Machine::new(), TIMEOUT);
    let mut source = script(&[10, 20]);
    line.close_entries();
    line.run(&mut source);
    for stage in STAGES {
        line.run_stage(stage, &mut source);
        assert_eq!(line.at(stage).state(), StageState::Drained);
        assert!(line.at(stage).lines().is_empty());
    }
    assert!(line.released());
    assert_eq!(source.next_latency(), 10);
}

#[test]
fn closing_the_entries_of_an_empty_line_drains_every_stage() {
    let mut line = Pipeline::new(Machine::new(), TIMEOUT);
    let mut source = script(&[10, 20]);
    line.close_entries();
    assert!(!line.released());
    line.run(&mut source);
    assert!(line.released());
    for stage in STAGES {
        assert_eq!(line.at(stage).state(), StageState::Drained);
        assert!(line.at(stage).lines().is_empty());
    }
    assert_eq!(source.next_latency(), 10);
}

#[test]
fn a_closed_line_takes_no_more_orders() {
    let mut line = Pipeline::new(Machine::new(), TIMEOUT);
    line.close_entries();
    assert_eq!(
        line.start(7, Size::Small),
        vec![
            "Error Starting Client 7 Coffee Beans!\nsending on a closed channel".to_string(),
            "Error starting Client 7 Milk!\nsending on a closed channel".to_string(),
        ]
    );
    assert_eq!(line.at(Stage::GrindCoffee).waiting(), 0);
    assert_eq!(line.at(Stage::HeatMilk).waiting(), 0);
}

#[test]
fn the_line_drains_even_if_every_stage_drops_every_order() {
    let mut line = Pipeline::new(Machine::new(), 1);
    let mut source = ThreadRngLatency::new();
    for client in 0..5 {
        line.start(client, Size::Medium);
    }
    line.close_entries();
    line.run(&mut source);
    assert!(line.released());
    assert_eq!(
        *line.at(Stage::GrindCoffee).lines(),
        vec!["CoffeeHopper Component Not Responding".to_string(); 5]
    );
    assert_eq!(
        *line.at(Stage::HeatMilk).lines(),
        vec!["MilkTank Component Not Responding".to_string(); 5]
    );
    assert!(line.at(Stage::DispenseWater).lines().is_empty());
    assert!(line.at(Stage::PressEspresso).lines().is_empty());
    assert!(line.at(Stage::FrothMilk).lines().is_empty());
}

#[test]
fn an_order_dropped_midway_goes_no_further() {
    let mut machine = Machine::new();
    machine.water.water = 1;
    let mut line = Pipeline::new(machine, TIMEOUT);
    let mut source = script(&[10]);
    line.start(0, Size::Small);
    line.start(1, Size::Medium);
    line.start(2, Size::Small);
    line.close_entries();
    line.run(&mut source);
    assert!(line.released());
    assert_eq!(*line.at(Stage::GrindCoffee).lines(), successes(Stage::GrindCoffee, &[0, 1, 2]));
    assert_eq!(
        *line.at(Stage::DispenseWater).lines(),
        vec![
            "Water Dispensed for Client 0!".to_string(),
            "Not enough water in WaterTank".to_string(),
            "Water Dispensed for Client 2!".to_string(),
        ]
    );
    assert_eq!(
        *line.at(Stage::PressEspresso).lines(),
        successes(Stage::PressEspresso, &[0, 2])
    );
    assert_eq!(*line.at(Stage::HeatMilk).lines(), successes(Stage::HeatMilk, &[0, 1, 2]));
    assert_eq!(*line.at(Stage::FrothMilk).lines(), successes(Stage::FrothMilk, &[0, 1, 2]));
}

#[test]
fn the_stations_probe_one_after_the_other() {
    let mut line = Pipeline::new(Machine::new(), 50);
    // Two orders: the hopper probes twice, then the water tank, and so on.
    let mut source = script(&[10, 60, 10, 60, 10, 10, 60, 10, 99]);
    line.start(0, Size::Small);
    line.start(1, Size::Small);
    line.close_entries();
    line.run(&mut source);
    assert!(line.released());
    assert_eq!(
        *line.at(Stage::GrindCoffee).lines(),
        vec![
            "Coffee Ground for Client 0!".to_string(),
            "CoffeeHopper Component Not Responding".to_string(),
        ]
    );
    assert_eq!(
        *line.at(Stage::DispenseWater).lines(),
        vec!["Water Dispensed for Client 0!".to_string()]
    );
    assert_eq!(
        *line.at(Stage::PressEspresso).lines(),
        vec!["EspressoPress Component Not Responding".to_string()]
    );
    assert_eq!(
        *line.at(Stage::HeatMilk).lines(),
        vec!["Milk heated for Client 0!".to_string(), "Milk heated for Client 1!".to_string()]
    );
    assert_eq!(
        *line.at(Stage::FrothMilk).lines(),
        vec![
            "Frother Component Not Responding".to_string(),
            "Milk frothed for Client 1!".to_string(),
        ]
    );
    assert_eq!(source.next_latency(), 99);
}

#[test]
fn five_medium_orders_on_a_ready_machine_are_all_served() {
    let cups = batch(Size::Medium);
    let mut source = ThreadRngLatency::new();
    let served = serve(&cups, Machine::new(), TIMEOUT, &mut source);
    let mut console = Vec::new();
    for client in 0..5 {
        console.push(format!("Client {} Coffee Beans Started!", client));
        console.push(format!("Client {} Milk Started!", client));
    }
    assert_eq!(served.console, console);
    assert!(served.line.released());
    for stage in STAGES {
        assert_eq!(*served.line.at(stage).lines(), successes(stage, &[0, 1, 2, 3, 4]));
        assert_eq!(served.line.at(stage).state(), StageState::Drained);
        assert_eq!(served.line.at(stage).waiting(), 0);
    }
}

#[test]
fn five_medium_orders_with_ample_stock_are_all_served() {
    let cups = batch(Size::Medium);
    let mut machine = Machine::new();
    machine.hopper.beans = 64;
    machine.water.water = 64;
    machine.milk.milk = 64;
    let mut source = script(&[99]);
    let served = serve(&cups, machine, 99, &mut source);
    assert_eq!(served.console.len(), 10);
    assert!(served.line.released());
    for stage in STAGES {
        assert_eq!(*served.line.at(stage).lines(), successes(stage, &[0, 1, 2, 3, 4]));
    }
}

#[test]
fn a_milk_tank_short_of_a_medium_cup_turns_every_order_down() {
    let cups = batch(Size::Medium);
    let mut machine = Machine::new();
    machine.milk.milk = 9;
    let mut source = ThreadRngLatency::new();
    let served = serve(&cups, machine, TIMEOUT, &mut source);
    let mut console = Vec::new();
    for name in NAMES {
        console.push("Not enough milk in MilkTank".to_string());
        console.push(format!("Cannot make {}'s Coffee!", name));
    }
    assert_eq!(served.console, console);
    assert!(served.line.released());
    for stage in STAGES {
        assert!(served.line.at(stage).lines().is_empty());
        assert_eq!(served.line.at(stage).waiting(), 0);
    }
}

#[test]
fn no_probe_is_made_for_a_batch_that_is_turned_down() {
    let cups = batch(Size::Large);
    let mut source = script(&[
        2, 3, 4, 5, 6, 7, 8, 9, 10, 11, 12, 13, 14, 15, 16, 17, 18, 19, 20, 21, 22, 23, 24, 25, 26,
        99,
    ]);
    let served = serve(&cups, Machine::new(), TIMEOUT, &mut source);
    assert_eq!(served.console.len(), 20);
    assert!(served.line.released());
    assert_eq!(source.next_latency(), 99);
}

#[test]
fn only_the_orders_admitted_enter_the_line() {
    let cups = vec![
        Cup::new(Size::Medium, "Josh".to_string()),
        Cup::new(Size::Large, "Sharon".to_string()),
        Cup::new(Size::Small, "Moobly".to_string()),
    ];
    let mut source = script(&[10]);
    let served = serve(&cups, Machine::new(), 40, &mut source);
    assert_eq!(
        served.console,
        vec![
            "Client 0 Start Coffee Timeout!".to_string(),
            "Client 0 Coffee Beans Started!".to_string(),
            "Client 0 Milk Started!".to_string(),
            "Not enough coffee beans in CoffeeHopper".to_string(),
            "Not enough water in WaterTank".to_string(),
            "Not enough milk in MilkTank".to_string(),
            "Cannot make Sharon's Coffee!".to_string(),
            "Client 2 Start Coffee Timeout!".to_string(),
            "Client 2 Coffee Beans Started!".to_string(),
            "Client 2 Milk Started!".to_string(),
        ]
    );
    assert!(served.line.released());
    for stage in STAGES {
        assert_eq!(*served.line.at(stage).lines(), successes(stage, &[0, 2]));
    }
}

#[test]
fn an_empty_batch_drains_the_line() {
    let mut source = script(&[10, 20]);
    let served = serve(&Vec::new(), Machine::new(), TIMEOUT, &mut source);
    assert!(served.console.is_empty());
    assert!(served.line.released());
    for stage in STAGES {
        assert!(served.line.at(stage).lines().is_empty());
    }
    assert_eq!(source.next_latency(), 10);
}

#[test]
fn an_order_admitted_may_still_be_dropped_at_its_stage() {
    let cups = batch(Size::Small);
    // Every probe at admission meets 10 ms; the probes of the stages meet 60 ms.
    let mut latencies = vec![10u64; 25];
    latencies.extend(vec![60u64; 10]);
    let mut source = script(&latencies);
    let served = serve(&cups, Machine::new(), 50, &mut source);
    assert_eq!(served.console.len(), 10);
    assert!(served.line.released());
    assert_eq!(
        *served.line.at(Stage::GrindCoffee).lines(),
        vec!["CoffeeHopper Component Not Responding".to_string(); 5]
    );
    assert_eq!(
        *served.line.at(Stage::HeatMilk).lines(),
        vec!["MilkTank Component Not Responding".to_string(); 5]
    );
    assert!(served.line.at(Stage::PressEspresso).lines().is_empty());
    assert!(served.line.at(Stage::FrothMilk).lines().is_empty());
}
