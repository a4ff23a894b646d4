use coffee_maker::latency::{
    LatencySource, Paced, ScriptedLatency, ThreadRngLatency, MAX_LATENCY, MIN_LATENCY,
};
use coffee_maker::machine_components::{
    enough, respond, Capacity, CoffeeHopper, EspressoPress, ExecJob, Frother, Ingredient,
    Machine, MilkTank, Ping, Size, WaterTank, BEANAMOUNT, MILKAMOUNT, WATERAMOUNT,
};
use std::cell::RefCell;

fn script(latencies: &[u64]) -> ScriptedLatency {
    ScriptedLatency::new(latencies.to_vec()).unwrap()
}

fn err(cause: &str) -> Result<(), String> {
    Err(cause.to_string())
}

#[test]
fn sizes_are_written_as_volumes() {
    assert_eq!(Size::Small.to_string(), "8 oz.");
    assert_eq!(Size::Medium.to_string(), "12 oz.");
    assert_eq!(Size::Large.to_string(), "16 oz.");
}

#[test]
fn ingredients_are_written_by_name() {
    assert_eq!(Ingredient::Espresso.to_string(), "Espresso");
    assert_eq!(Ingredient::Milk.to_string(), "Milk");
}

#[test]
fn fresh_machine_holds_the_house_amounts() {
    let machine = Machine::new();
    assert_eq!(machine.hopper.beans, 2);
    assert_eq!(machine.water.water, 2);
    assert_eq!(machine.milk.milk, 10);
    assert_eq!(BEANAMOUNT, 2);
    assert_eq!(WATERAMOUNT, 2);
    assert_eq!(MILKAMOUNT, 10);
    assert_eq!(CoffeeHopper::default().beans, 2);
    assert_eq!(WaterTank::default().water, 2);
    assert_eq!(MilkTank::default().milk, 10);
}

#[test]
fn consumption_tables() {
    assert_eq!(CoffeeHopper::consumption(Size::Small), 1);
    assert_eq!(CoffeeHopper::consumption(Size::Medium), 2);
    assert_eq!(CoffeeHopper::consumption(Size::Large), 3);
    assert_eq!(WaterTank::consumption(Size::Small), 1);
    assert_eq!(WaterTank::consumption(Size::Medium), 2);
    assert_eq!(WaterTank::consumption(Size::Large), 3);
    assert_eq!(MilkTank::consumption(Size::Small), 7);
    assert_eq!(MilkTank::consumption(Size::Medium), 10);
    assert_eq!(MilkTank::consumption(Size::Large), 13);
}

#[test]
fn hopper_capacity_against_the_house_amount() {
    let hopper = CoffeeHopper::new();
    assert_eq!(hopper.check_capacity(Size::Small), Ok(()));
    assert_eq!(hopper.check_capacity(Size::Medium), Ok(()));
    assert_eq!(
        hopper.check_capacity(Size::Large),
        err("Not enough coffee beans in CoffeeHopper")
    );
}

#[test]
fn water_capacity_against_the_house_amount() {
    let tank = WaterTank::new();
    assert_eq!(tank.check_capacity(Size::Small), Ok(()));
    assert_eq!(tank.check_capacity(Size::Medium), Ok(()));
    assert_eq!(tank.check_capacity(Size::Large), err("Not enough water in WaterTank"));
}

#[test]
fn milk_capacity_against_the_house_amount() {
    let tank = MilkTank::new();
    assert_eq!(tank.check_capacity(Size::Small), Ok(()));
    assert_eq!(tank.check_capacity(Size::Medium), Ok(()));
    assert_eq!(tank.check_capacity(Size::Large), err("Not enough milk in MilkTank"));
}

#[test]
fn capacity_passes_exactly_when_consumption_fits() {
    let sizes = [Size::Small, Size::Medium, Size::Large];
    for level in 0..20u32 {
        for size in sizes {
            let hopper = CoffeeHopper { beans: level };
            assert_eq!(
                hopper.check_capacity(size).is_ok(),
                CoffeeHopper::consumption(size) <= level
            );
            let water = WaterTank { water: level };
            assert_eq!(
                water.check_capacity(size).is_ok(),
                WaterTank::consumption(size) <= level
            );
            let milk = MilkTank { milk: level };
            assert_eq!(milk.check_capacity(size).is_ok(), MilkTank::consumption(size) <= level);
        }
    }
}

#[test]
fn capacity_failure_names_its_subsystem() {
    let hopper = CoffeeHopper { beans: 0 };
    let water = WaterTank { water: 0 };
    let milk = MilkTank { milk: 6 };
    assert!(hopper.check_capacity(Size::Small).unwrap_err().contains("CoffeeHopper"));
    assert!(water.check_capacity(Size::Small).unwrap_err().contains("WaterTank"));
    assert!(milk.check_capacity(Size::Small).unwrap_err().contains("MilkTank"));
}

#[test]
fn capacity_is_not_used_up_by_checks() {
    let milk = MilkTank::new();
    for _ in 0..50 {
        assert_eq!(milk.check_capacity(Size::Medium), Ok(()));
    }
    assert_eq!(milk.milk, 10);
}

#[test]
fn respond_compares_latency_with_timeout() {
    assert_eq!(respond("gone", 50, 50), Ok(()));
    assert_eq!(respond("gone", 49, 50), Ok(()));
    assert_eq!(respond("gone", 51, 50), err("gone"));
    assert_eq!(respond("gone", 0, 0), Ok(()));
    assert_eq!(respond("gone", 1, 0), err("gone"));
    assert_eq!(respond("gone", u64::MAX, 101), err("gone"));
}

#[test]
fn enough_compares_need_with_stock() {
    assert_eq!(enough("short", 2, 2), Ok(()));
    assert_eq!(enough("short", 0, 0), Ok(()));
    assert_eq!(enough("short", 3, 2), err("short"));
    assert_eq!(enough("short", u32::MAX, u32::MAX - 1), err("short"));
}

#[test]
fn ping_fails_exactly_above_the_timeout() {
    let mut source = script(&[50, 51, 50, 51, 50, 51, 50, 51, 50, 51]);
    assert_eq!(CoffeeHopper::ping(50, &mut source), Ok(()));
    assert_eq!(
        CoffeeHopper::ping(50, &mut source),
        err("CoffeeHopper Component Not Responding")
    );
    assert_eq!(WaterTank::ping(50, &mut source), Ok(()));
    assert_eq!(WaterTank::ping(50, &mut source), err("WaterTank Component Not Responding"));
    assert_eq!(EspressoPress::ping(50, &mut source), Ok(()));
    assert_eq!(
        EspressoPress::ping(50, &mut source),
        err("EspressoPress Component Not Responding")
    );
    assert_eq!(MilkTank::ping(50, &mut source), Ok(()));
    assert_eq!(MilkTank::ping(50, &mut source), err("MilkTank Component Not Responding"));
    assert_eq!(Frother::ping(50, &mut source), Ok(()));
    assert_eq!(Frother::ping(50, &mut source), err("Frother Component Not Responding"));
}

#[test]
fn ping_never_fails_at_the_longest_latency() {
    let mut slowest = script(&[MAX_LATENCY]);
    assert_eq!(CoffeeHopper::ping(MAX_LATENCY as usize, &mut slowest), Ok(()));
    assert_eq!(CoffeeHopper::ping(101, &mut slowest), Ok(()));
    assert_eq!(CoffeeHopper::ping(usize::MAX, &mut slowest), Ok(()));
    assert!(CoffeeHopper::ping(MAX_LATENCY as usize - 1, &mut slowest).is_err());
    let mut random = ThreadRngLatency::new();
    for _ in 0..200 {
        assert_eq!(CoffeeHopper::ping(99, &mut random), Ok(()));
        assert_eq!(WaterTank::ping(99, &mut random), Ok(()));
        assert_eq!(EspressoPress::ping(99, &mut random), Ok(()));
        assert_eq!(MilkTank::ping(99, &mut random), Ok(()));
        assert_eq!(Frother::ping(99, &mut random), Ok(()));
    }
}

#[test]
fn ping_always_fails_under_the_shortest_latency() {
    let mut random = ThreadRngLatency::new();
    for _ in 0..200 {
        assert!(CoffeeHopper::ping(1, &mut random).is_err());
        assert!(Frother::ping(0, &mut random).is_err());
    }
    let mut fastest = script(&[MIN_LATENCY]);
    assert!(MilkTank::ping(1, &mut fastest).is_err());
    assert_eq!(MilkTank::ping(2, &mut fastest), Ok(()));
}

#[test]
fn random_latencies_stay_in_range_and_vary() {
    let mut random = ThreadRngLatency::new();
    let mut least = u64::MAX;
    let mut most = 0;
    for _ in 0..2000 {
        let ms = random.next_latency();
        assert!(ms >= 2 && ms < 100);
        least = least.min(ms);
        most = most.max(ms);
    }
    assert!(least < most);
}

#[test]
fn scripted_latencies_go_round() {
    let mut source = script(&[2, 99, 40]);
    let drawn: Vec<u64> = (0..7).map(|_| source.next_latency()).collect();
    assert_eq!(drawn, vec![2, 99, 40, 2, 99, 40, 2]);
}

#[test]
fn a_script_must_be_drawable() {
    assert!(ScriptedLatency::new(vec![]).is_none());
    assert!(ScriptedLatency::new(vec![1]).is_none());
    assert!(ScriptedLatency::new(vec![100]).is_none());
    assert!(ScriptedLatency::new(vec![50, 0]).is_none());
    assert!(ScriptedLatency::new(vec![2]).is_some());
    assert!(ScriptedLatency::new(vec![99]).is_some());
    assert!(ScriptedLatency::new(vec![2, 50, 99]).is_some());
}

#[test]
fn grind_beans_probes_then_checks_stock() {
    let hopper = CoffeeHopper::new();
    let mut source = script(&[10]);
    assert_eq!(hopper.grind_beans(101, Some(Size::Medium), &mut source), Ok(()));
    assert_eq!(hopper.grind_beans(101, None, &mut source), Ok(()));
    assert_eq!(
        hopper.grind_beans(101, Some(Size::Large), &mut source),
        err("Not enough coffee beans in CoffeeHopper")
    );
    assert_eq!(
        hopper.grind_beans(9, Some(Size::Large), &mut source),
        err("CoffeeHopper Component Not Responding")
    );
    assert_eq!(
        hopper.grind_beans(9, None, &mut source),
        err("CoffeeHopper Component Not Responding")
    );
}

#[test]
fn water_dispense_probes_then_checks_stock() {
    let tank = WaterTank { water: 1 };
    let mut source = script(&[10]);
    assert_eq!(tank.dispense(10, Some(Size::Small), &mut source), Ok(()));
    assert_eq!(
        tank.dispense(10, Some(Size::Medium), &mut source),
        err("Not enough water in WaterTank")
    );
    assert_eq!(tank.dispense(10, None, &mut source), Ok(()));
    assert_eq!(
        tank.dispense(9, Some(Size::Small), &mut source),
        err("WaterTank Component Not Responding")
    );
}

#[test]
fn milk_dispense_probes_then_checks_stock() {
    let tank = MilkTank::new();
    let mut source = script(&[10]);
    assert_eq!(tank.dispense(10, Some(Size::Medium), &mut source), Ok(()));
    assert_eq!(
        tank.dispense(10, Some(Size::Large), &mut source),
        err("Not enough milk in MilkTank")
    );
    assert_eq!(tank.dispense(10, None, &mut source), Ok(()));
    assert_eq!(
        tank.dispense(9, Some(Size::Large), &mut source),
        err("MilkTank Component Not Responding")
    );
}

#[test]
fn press_and_froth_only_probe() {
    let mut source = script(&[10]);
    assert_eq!(EspressoPress::press(10, &mut source), Ok(()));
    assert_eq!(
        EspressoPress::press(9, &mut source),
        err("EspressoPress Component Not Responding")
    );
    assert_eq!(Frother::froth(10, &mut source), Ok(()));
    assert_eq!(Frother::froth(9, &mut source), err("Frother Component Not Responding"));
}

#[test]
fn exec_job_is_the_job_of_each_subsystem() {
    let machine = Machine::new();
    let mut source = script(&[10]);
    assert_eq!(machine.hopper.exec_job(101, Some(Size::Medium), &mut source), Ok(()));
    assert_eq!(
        machine.hopper.exec_job(101, Some(Size::Large), &mut source),
        err("Not enough coffee beans in CoffeeHopper")
    );
    assert_eq!(
        machine.water.exec_job(101, Some(Size::Large), &mut source),
        err("Not enough water in WaterTank")
    );
    assert_eq!(
        machine.milk.exec_job(101, Some(Size::Large), &mut source),
        err("Not enough milk in MilkTank")
    );
    assert_eq!(machine.press.exec_job(101, Some(Size::Large), &mut source), Ok(()));
    assert_eq!(machine.frother.exec_job(101, Some(Size::Large), &mut source), Ok(()));
    assert_eq!(
        machine.press.exec_job(5, None, &mut source),
        err("EspressoPress Component Not Responding")
    );
    assert_eq!(
        machine.frother.exec_job(5, None, &mut source),
        err("Frother Component Not Responding")
    );
}

#[test]
fn each_job_draws_one_latency() {
    let machine = Machine::new();
    let mut source = script(&[10, 20, 30, 40, 50]);
    assert_eq!(machine.hopper.exec_job(10, None, &mut source), Ok(()));
    assert!(machine.water.exec_job(10, None, &mut source).is_err());
    assert!(machine.press.exec_job(29, None, &mut source).is_err());
    assert_eq!(machine.milk.exec_job(40, None, &mut source), Ok(()));
    assert_eq!(machine.frother.exec_job(50, None, &mut source), Ok(()));
    assert_eq!(source.next_latency(), 10);
}

#[test]
fn a_paced_source_pauses_for_each_latency_it_hands_out() {
    let paused = RefCell::new(Vec::new());
    let mut source = Paced::new(script(&[10, 20, 30]), |ms| paused.borrow_mut().push(ms));
    assert_eq!(source.next_latency(), 10);
    assert_eq!(*paused.borrow(), vec![10]);
    assert_eq!(
        CoffeeHopper::ping(15, &mut source),
        err("CoffeeHopper Component Not Responding")
    );
    assert_eq!(CoffeeHopper::ping(30, &mut source), Ok(()));
    assert_eq!(source.next_latency(), 10);
    assert_eq!(*paused.borrow(), vec![10, 20, 30, 10]);
}

#[test]
fn a_paced_random_source_stays_in_range() {
    let paused = RefCell::new(Vec::new());
    let mut source = Paced::new(ThreadRngLatency::new(), |ms| paused.borrow_mut().push(ms));
    let drawn: Vec<u64> = (0..100).map(|_| source.next_latency()).collect();
    assert!(drawn.iter().all(|ms| (2..100).contains(ms)));
    assert_eq!(*paused.borrow(), drawn);
}
