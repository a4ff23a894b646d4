//! The five subsystems of the machine, the probe that tells whether one
//! answers in time, and the check that tells whether one holds enough
//! material for a cup of a given size.

use crate::latency::{drew, LatencySource, MAX_LATENCY, MIN_LATENCY};
use vstd::prelude::*;

verus! {

/// The ounces of coffee beans in a freshly filled hopper.
pub const BEANAMOUNT: u32 = 2;

/// The ounces of water in a freshly filled tank.
pub const WATERAMOUNT: u32 = 2;

/// The ounces of milk in a freshly filled tank.
pub const MILKAMOUNT: u32 = 10;

/// The outcome of a check with the failure's cause as a sequence of characters.
pub open spec fn verdict(r: Result<(), String>) -> Result<(), Seq<char>> {
    match r {
        Ok(_) => Ok(()),
        Err(cause) => Err(cause@),
    }
}

/// The outcome of a probe that met `latency` under `timeout`: the subsystem
/// is live when the latency does not exceed the timeout.
pub open spec fn probe(silence: Seq<char>, latency: u64, timeout: usize) -> Result<
    (),
    Seq<char>,
> {
    if latency as int <= timeout as int {
        Ok(())
    } else {
        Err(silence)
    }
}

/// The outcome of a stock check: there is enough when what the cup needs does
/// not exceed what is left.
pub open spec fn stock(shortage: Seq<char>, needed: nat, left: nat) -> Result<(), Seq<char>> {
    if needed <= left {
        Ok(())
    } else {
        Err(shortage)
    }
}

/// The outcome of two checks of which the second is made only when the first
/// has passed.
pub open spec fn and_then(first: Result<(), Seq<char>>, second: Result<(), Seq<char>>) -> Result<
    (),
    Seq<char>,
> {
    if first is Err {
        first
    } else {
        second
    }
}

/// What goes into a cup.
#[derive(Clone, Copy, Debug, PartialEq, Eq, Structural)]
pub enum Ingredient {
    Espresso,
    Milk,
}

impl Ingredient {
    /// The ingredient's name as a sequence of characters.
    pub open spec fn text(self) -> Seq<char> {
        match self {
            Ingredient::Espresso => "Espresso"@,
            Ingredient::Milk => "Milk"@,
        }
    }

    /// The ingredient's name.
    pub fn to_string(&self) -> (name: String)
        ensures
            name@ == self.text(),
    {
        match self {
            Ingredient::Espresso => String::from_str("Espresso"),
            Ingredient::Milk => String::from_str("Milk"),
        }
    }
}

/// The size of a cup.
#[derive(Clone, Copy, Debug, PartialEq, Eq, Structural)]
pub enum Size {
    Small,
    Medium,
    Large,
}

impl Size {
    /// The volume of a cup of this size, as printed on the menu.
    pub open spec fn text(self) -> Seq<char> {
        match self {
            Size::Small => "8 oz."@,
            Size::Medium => "12 oz."@,
            Size::Large => "16 oz."@,
        }
    }

    /// The volume of a cup of this size, as printed on the menu.
    pub fn to_string(&self) -> (volume: String)
        ensures
            volume@ == self.text(),
    {
        match self {
            Size::Small => String::from_str("8 oz."),
            Size::Medium => String::from_str("12 oz."),
            Size::Large => String::from_str("16 oz."),
        }
    }
}

/// Answers a probe that met `latency`: a failure with the cause `silence`
/// when the latency exceeds `timeout`.
pub fn respond(silence: &str, latency: u64, timeout: usize) -> (r: Result<(), String>)
    ensures
        verdict(r) == probe(silence@, latency, timeout),
{
    if latency > timeout as u64 {
        Err(String::from_str(silence))
    } else {
        Ok(())
    }
}

/// Answers a stock check: a failure with the cause `shortage` when the cup
/// needs more than is left.
pub fn enough(shortage: &str, needed: u32, left: u32) -> (r: Result<(), String>)
    ensures
        verdict(r) == stock(shortage@, needed as nat, left as nat),
{
    if needed <= left {
        Ok(())
    } else {
        Err(String::from_str(shortage))
    }
}

/// A subsystem that can be asked whether it is live.
pub trait Ping {
    /// The cause reported when the subsystem does not answer in time.
    spec fn silence() -> Seq<char>;

    /// Probes the subsystem: draws one latency from `source` and fails when it
    /// exceeds `timeout`. A timeout of at least [`MAX_LATENCY`] never fails.
    fn ping<L: LatencySource>(timeout: usize, source: &mut L) -> (r: Result<(), String>)
        ensures
            drew(old(source).drawn(), final(source).drawn(), 1),
            verdict(r) == probe(Self::silence(), final(source).drawn().last(), timeout),
            timeout >= MAX_LATENCY ==> r is Ok,
            timeout < MIN_LATENCY ==> r is Err,
    ;
}

/// A subsystem that holds material which cups use up.
pub trait Capacity {
    /// The ounces of material that are left.
    spec fn remaining(&self) -> nat;

    /// The ounces of material that a cup of size `s` takes.
    spec fn needed(s: Size) -> nat;

    /// The cause reported when too little is left.
    spec fn shortage() -> Seq<char>;

    /// Checks that enough is left for a cup of size `s`. The level is read,
    /// never lowered.
    fn check_capacity(&self, s: Size) -> (r: Result<(), String>)
        ensures
            verdict(r) == stock(Self::shortage(), Self::needed(s), self.remaining()),
            Self::needed(s) <= self.remaining() ==> r is Ok,
            Self::needed(s) > self.remaining() ==> verdict(r) == Err::<(), Seq<char>>(
                Self::shortage(),
            ),
    ;
}

/// A subsystem that does one step of the work on a cup.
pub trait ExecJob {
    /// The outcome of the step for a probe that met `latency`.
    spec fn job(&self, latency: u64, timeout: usize, size: Option<Size>) -> Result<(), Seq<char>>;

    /// Does the step: probes the subsystem and, where it holds material and a
    /// size is given, checks the stock.
    fn exec_job<L: LatencySource>(&self, timeout: usize, size: Option<Size>, source: &mut L) -> (r:
        Result<(), String>)
        ensures
            drew(old(source).drawn(), final(source).drawn(), 1),
            verdict(r) == self.job(final(source).drawn().last(), timeout, size),
    ;
}

/// The hopper that holds the coffee beans and grinds them.
#[derive(Clone, Copy, Debug, PartialEq, Eq)]
pub struct CoffeeHopper {
    /// The ounces of coffee beans that are left.
    pub beans: u32,
}

impl CoffeeHopper {
    /// A freshly filled hopper.
    pub fn new() -> (made: Self)
        ensures
            made.beans == BEANAMOUNT,
    {
        CoffeeHopper { beans: BEANAMOUNT }
    }

    /// The ounces of coffee beans that a cup of size `s` takes.
    pub fn consumption(s: Size) -> (ounces: u32)
        ensures
            ounces == Self::needed(s),
    {
        match s {
            Size::Small => 1,
            Size::Medium => 2,
            Size::Large => 3,
        }
    }

    /// Grinds the beans for one cup: the hopper must answer in time and, where a
    /// size is given, hold enough beans for it.
    pub fn grind_beans<L: LatencySource>(
        &self,
        timeout: usize,
        size: Option<Size>,
        source: &mut L,
    ) -> (r: Result<(), String>)
        ensures
            drew(old(source).drawn(), final(source).drawn(), 1),
            verdict(r) == self.job(final(source).drawn().last(), timeout, size),
    {
        if let Err(e) = CoffeeHopper::ping(timeout, source) {
            return Err(e);
        }
        match size {
            Some(s) => {
                if let Err(e) = self.check_capacity(s) {
                    return Err(e);
                }
            },
            None => (),
        }
        Ok(())
    }
}

impl Default for CoffeeHopper {
    fn default() -> (made: Self)
        ensures
            made.beans == BEANAMOUNT,
    {
        CoffeeHopper::new()
    }
}

impl Ping for CoffeeHopper {
    open spec fn silence() -> Seq<char> {
        "CoffeeHopper Component Not Responding"@
    }

    fn ping<L: LatencySource>(timeout: usize, source: &mut L) -> (r: Result<(), String>) {
        let latency: u64 = source.next_latency();
        respond("CoffeeHopper Component Not Responding", latency, timeout)
    }
}

impl Capacity for CoffeeHopper {
    open spec fn remaining(&self) -> nat {
        self.beans as nat
    }

    open spec fn needed(s: Size) -> nat {
        match s {
            Size::Small => 1,
            Size::Medium => 2,
            Size::Large => 3,
        }
    }

    open spec fn shortage() -> Seq<char> {
        "Not enough coffee beans in CoffeeHopper"@
    }

    fn check_capacity(&self, s: Size) -> (r: Result<(), String>) {
        enough("Not enough coffee beans in CoffeeHopper", CoffeeHopper::consumption(s), self.beans)
    }
}

impl ExecJob for CoffeeHopper {
    open spec fn job(&self, latency: u64, timeout: usize, size: Option<Size>) -> Result<
        (),
        Seq<char>,
    > {
        and_then(
            probe(Self::silence(), latency, timeout),
            match size {
                Some(s) => stock(Self::shortage(), Self::needed(s), self.remaining()),
                None => Ok(()),
            },
        )
    }

    fn exec_job<L: LatencySource>(&self, timeout: usize, size: Option<Size>, source: &mut L) -> (r:
        Result<(), String>) {
        self.grind_beans(timeout, size, source)
    }
}

/// The tank that holds the water and dispenses it hot.
#[derive(Clone, Copy, Debug, PartialEq, Eq)]
pub struct WaterTank {
    /// The ounces of water that are left.
    pub water: u32,
}

impl WaterTank {
    /// A freshly filled tank.
    pub fn new() -> (made: Self)
        ensures
            made.water == WATERAMOUNT,
    {
        WaterTank { water: WATERAMOUNT }
    }

    /// The ounces of water that a cup of size `s` takes.
    pub fn consumption(s: Size) -> (ounces: u32)
        ensures
            ounces == Self::needed(s),
    {
        match s {
            Size::Small => 1,
            Size::Medium => 2,
            Size::Large => 3,
        }
    }

    /// Dispenses the water for one cup: the tank must answer in time and, where a
    /// size is given, hold enough water for it.
    pub fn dispense<L: LatencySource>(
        &self,
        timeout: usize,
        size: Option<Size>,
        source: &mut L,
    ) -> (r: Result<(), String>)
        ensures
            drew(old(source).drawn(), final(source).drawn(), 1),
            verdict(r) == self.job(final(source).drawn().last(), timeout, size),
    {
        if let Err(e) = WaterTank::ping(timeout, source) {
            return Err(e);
        }
        match size {
            Some(s) => {
                if let Err(e) = self.check_capacity(s) {
                    return Err(e);
                }
            },
            None => (),
        }
        Ok(())
    }
}

impl Default for WaterTank {
    fn default() -> (made: Self)
        ensures
            made.water == WATERAMOUNT,
    {
        WaterTank::new()
    }
}

impl Ping for WaterTank {
    open spec fn silence() -> Seq<char> {
        "WaterTank Component Not Responding"@
    }

    fn ping<L: LatencySource>(timeout: usize, source: &mut L) -> (r: Result<(), String>) {
        let latency: u64 = source.next_latency();
        respond("WaterTank Component Not Responding", latency, timeout)
    }
}

impl Capacity for WaterTank {
    open spec fn remaining(&self) -> nat {
        self.water as nat
    }

    open spec fn needed(s: Size) -> nat {
        match s {
            Size::Small => 1,
            Size::Medium => 2,
            Size::Large => 3,
        }
    }

    open spec fn shortage() -> Seq<char> {
        "Not enough water in WaterTank"@
    }

    fn check_capacity(&self, s: Size) -> (r: Result<(), String>) {
        enough("Not enough water in WaterTank", WaterTank::consumption(s), self.water)
    }
}

impl ExecJob for WaterTank {
    open spec fn job(&self, latency: u64, timeout: usize, size: Option<Size>) -> Result<
        (),
        Seq<char>,
    > {
        and_then(
            probe(Self::silence(), latency, timeout),
            match size {
                Some(s) => stock(Self::shortage(), Self::needed(s), self.remaining()),
                None => Ok(()),
            },
        )
    }

    fn exec_job<L: LatencySource>(&self, timeout: usize, size: Option<Size>, source: &mut L) -> (r:
        Result<(), String>) {
        self.dispense(timeout, size, source)
    }
}

/// The press that turns grounds and hot water into espresso.
#[derive(Clone, Copy, Debug, PartialEq, Eq)]
pub struct EspressoPress;

impl EspressoPress {
    /// Presses one espresso: the press must answer in time.
    pub fn press<L: LatencySource>(timeout: usize, source: &mut L) -> (r: Result<(), String>)
        ensures
            drew(old(source).drawn(), final(source).drawn(), 1),
            verdict(r) == probe(Self::silence(), final(source).drawn().last(), timeout),
    {
        if let Err(e) = EspressoPress::ping(timeout, source) {
            return Err(e);
        }
        Ok(())
    }
}

impl Ping for EspressoPress {
    open spec fn silence() -> Seq<char> {
        "EspressoPress Component Not Responding"@
    }

    fn ping<L: LatencySource>(timeout: usize, source: &mut L) -> (r: Result<(), String>) {
        let latency: u64 = source.next_latency();
        respond("EspressoPress Component Not Responding", latency, timeout)
    }
}

impl ExecJob for EspressoPress {
    open spec fn job(&self, latency: u64, timeout: usize, size: Option<Size>) -> Result<
        (),
        Seq<char>,
    > {
        probe(Self::silence(), latency, timeout)
    }

    fn exec_job<L: LatencySource>(&self, timeout: usize, size: Option<Size>, source: &mut L) -> (r:
        Result<(), String>) {
        EspressoPress::press(timeout, source)
    }
}

/// The tank that holds the milk and dispenses it warm.
#[derive(Clone, Copy, Debug, PartialEq, Eq)]
pub struct MilkTank {
    /// The ounces of milk that are left.
    pub milk: u32,
}

impl MilkTank {
    /// A freshly filled tank.
    pub fn new() -> (made: Self)
        ensures
            made.milk == MILKAMOUNT,
    {
        MilkTank { milk: MILKAMOUNT }
    }

    /// The ounces of milk that a cup of size `s` takes.
    pub fn consumption(s: Size) -> (ounces: u32)
        ensures
            ounces == Self::needed(s),
    {
        match s {
            Size::Small => 7,
            Size::Medium => 10,
            Size::Large => 13,
        }
    }

    /// Dispenses the milk for one cup: the tank must answer in time and, where a
    /// size is given, hold enough milk for it.
    pub fn dispense<L: LatencySource>(
        &self,
        timeout: usize,
        size: Option<Size>,
        source: &mut L,
    ) -> (r: Result<(), String>)
        ensures
            drew(old(source).drawn(), final(source).drawn(), 1),
            verdict(r) == self.job(final(source).drawn().last(), timeout, size),
    {
        if let Err(e) = MilkTank::ping(timeout, source) {
            return Err(e);
        }
        match size {
            Some(s) => {
                if let Err(e) = self.check_capacity(s) {
                    return Err(e);
                }
            },
            None => (),
        }
        Ok(())
    }
}

impl Default for MilkTank {
    fn default() -> (made: Self)
        ensures
            made.milk == MILKAMOUNT,
    {
        MilkTank::new()
    }
}

impl Ping for MilkTank {
    open spec fn silence() -> Seq<char> {
        "MilkTank Component Not Responding"@
    }

    fn ping<L: LatencySource>(timeout: usize, source: &mut L) -> (r: Result<(), String>) {
        let latency: u64 = source.next_latency();
        respond("MilkTank Component Not Responding", latency, timeout)
    }
}

impl Capacity for MilkTank {
    open spec fn remaining(&self) -> nat {
        self.milk as nat
    }

    open spec fn needed(s: Size) -> nat {
        match s {
            Size::Small => 7,
            Size::Medium => 10,
            Size::Large => 13,
        }
    }

    open spec fn shortage() -> Seq<char> {
        "Not enough milk in MilkTank"@
    }

    fn check_capacity(&self, s: Size) -> (r: Result<(), String>) {
        enough("Not enough milk in MilkTank", MilkTank::consumption(s), self.milk)
    }
}

impl ExecJob for MilkTank {
    open spec fn job(&self, latency: u64, timeout: usize, size: Option<Size>) -> Result<
        (),
        Seq<char>,
    > {
        and_then(
            probe(Self::silence(), latency, timeout),
            match size {
                Some(s) => stock(Self::shortage(), Self::needed(s), self.remaining()),
                None => Ok(()),
            },
        )
    }

    fn exec_job<L: LatencySource>(&self, timeout: usize, size: Option<Size>, source: &mut L) -> (r:
        Result<(), String>) {
        self.dispense(timeout, size, source)
    }
}

/// The frother that foams the warm milk.
#[derive(Clone, Copy, Debug, PartialEq, Eq)]
pub struct Frother;

impl Frother {
    /// Froths the milk of one cup: the frother must answer in time.
    pub fn froth<L: LatencySource>(timeout: usize, source: &mut L) -> (r: Result<(), String>)
        ensures
            drew(old(source).drawn(), final(source).drawn(), 1),
            verdict(r) == probe(Self::silence(), final(source).drawn().last(), timeout),
    {
        if let Err(e) = Frother::ping(timeout, source) {
            return Err(e);
        }
        Ok(())
    }
}

impl Ping for Frother {
    open spec fn silence() -> Seq<char> {
        "Frother Component Not Responding"@
    }

    fn ping<L: LatencySource>(timeout: usize, source: &mut L) -> (r: Result<(), String>) {
        let latency: u64 = source.next_latency();
        respond("Frother Component Not Responding", latency, timeout)
    }
}

impl ExecJob for Frother {
    open spec fn job(&self, latency: u64, timeout: usize, size: Option<Size>) -> Result<
        (),
        Seq<char>,
    > {
        probe(Self::silence(), latency, timeout)
    }

    fn exec_job<L: LatencySource>(&self, timeout: usize, size: Option<Size>, source: &mut L) -> (r:
        Result<(), String>) {
        Frother::froth(timeout, source)
    }
}

/// The five subsystems of one machine, each with what it has left.
#[derive(Clone, Copy, Debug, PartialEq, Eq)]
pub struct Machine {
    pub hopper: CoffeeHopper,
    pub water: WaterTank,
    pub press: EspressoPress,
    pub milk: MilkTank,
    pub frother: Frother,
}

impl Machine {
    /// A machine with its hopper and both tanks freshly filled.
    pub fn new() -> (machine: Self)
        ensures
            machine.hopper.beans == BEANAMOUNT,
            machine.water.water == WATERAMOUNT,
            machine.milk.milk == MILKAMOUNT,
    {
        Machine {
            hopper: CoffeeHopper::new(),
            water: WaterTank::new(),
            press: EspressoPress,
            milk: MilkTank::new(),
            frother: Frother,
        }
    }

    /// Whether hopper and tanks hold enough for a cup of size `s`.
    pub open spec fn stocked_for(&self, s: Size) -> bool {
        &&& CoffeeHopper::needed(s) <= self.hopper.remaining()
        &&& WaterTank::needed(s) <= self.water.remaining()
        &&& MilkTank::needed(s) <= self.milk.remaining()
    }
}

} // verus!
