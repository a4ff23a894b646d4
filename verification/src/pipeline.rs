//! The line as a whole, run on the calling thread: one machine, the five
//! stations that work on its orders, and the run that lets every station
//! work off what reaches it, each branch from its entry on.

use crate::latency::{drawable, drew, lemma_drew_more, since, LatencySource, MAX_LATENCY};
use crate::link::ChannelData;
use crate::machine_components::{Machine, Size};
use crate::message_based::start_texts;
use crate::stage::{Stage, StageState};
use crate::station::{
    lemma_last_stage_sends_nothing, lemma_lines_of_reads_its_latencies,
    lemma_passed_on_needs_a_taker, lemma_passed_on_reads_its_latencies,
    lemma_ready_stage_succeeds, lemma_station_in_run, stocked_at, stocked_throughout, Station,
    StationView,
};
use crate::text::texts;
use vstd::prelude::*;

verus! {

/// The line as the contracts see it.
#[verifier::ext_equal]
pub struct LineView {
    /// The machine that the line works on.
    pub machine: Machine,
    /// The timeout of the probes that the stages make.
    pub timeout: usize,
    pub grind: StationView,
    pub water: StationView,
    pub press: StationView,
    pub milk: StationView,
    pub froth: StationView,
}

impl LineView {
    /// The station of a stage.
    pub open spec fn station(self, stage: Stage) -> StationView {
        match stage {
            Stage::GrindCoffee => self.grind,
            Stage::DispenseWater => self.water,
            Stage::PressEspresso => self.press,
            Stage::HeatMilk => self.milk,
            Stage::FrothMilk => self.froth,
        }
    }

    /// A line between two runs: every station serves its stage with the
    /// line's timeout, is itself between two runs, and is fed for exactly as
    /// long as the worker before it is not done.
    pub open spec fn wf(self) -> bool {
        &&& self.grind.serves(Stage::GrindCoffee, self.timeout)
        &&& self.water.serves(Stage::DispenseWater, self.timeout)
        &&& self.press.serves(Stage::PressEspresso, self.timeout)
        &&& self.milk.serves(Stage::HeatMilk, self.timeout)
        &&& self.froth.serves(Stage::FrothMilk, self.timeout)
        &&& self.water.fed <==> self.grind.state == StageState::Running
        &&& self.press.fed <==> self.water.state == StageState::Running
        &&& self.froth.fed <==> self.milk.state == StageState::Running
    }

    /// Whether every worker is done: the completion barrier lets go then,
    /// and only then.
    pub open spec fn is_released(self) -> bool {
        forall|stage: Stage| (#[trigger] self.station(stage)).state == StageState::Drained
    }

    /// A line with all workers waiting, both entries open and nothing sent.
    pub open spec fn idle(machine: Machine, timeout: usize) -> LineView {
        LineView {
            machine,
            timeout,
            grind: StationView::idle(Stage::GrindCoffee, timeout),
            water: StationView::idle(Stage::DispenseWater, timeout),
            press: StationView::idle(Stage::PressEspresso, timeout),
            milk: StationView::idle(Stage::HeatMilk, timeout),
            froth: StationView::idle(Stage::FrothMilk, timeout),
        }
    }

    /// A line on which `orders` wait at both entries and nothing else has
    /// happened.
    pub open spec fn loaded(machine: Machine, timeout: usize, orders: Seq<ChannelData>)
        -> LineView {
        LineView {
            grind: StationView { inbox: orders, ..StationView::idle(Stage::GrindCoffee, timeout) },
            milk: StationView { inbox: orders, ..StationView::idle(Stage::HeatMilk, timeout) },
            ..LineView::idle(machine, timeout)
        }
    }

    /// The line after an order was started on both branches.
    pub open spec fn started(self, client_id: usize, size: Size) -> LineView {
        LineView {
            grind: self.grind.sent((client_id, Some(size))),
            milk: self.milk.sent((client_id, Some(size))),
            ..self
        }
    }

    /// The line after both entries were closed.
    pub open spec fn closed(self) -> LineView {
        LineView { grind: self.grind.closed(), milk: self.milk.closed(), ..self }
    }

    /// The line after the station of `stage` alone has worked off what had
    /// reached it, with probes that met `latencies`: what it hands on waits
    /// at the station behind it.
    pub open spec fn stage_ran(self, stage: Stage, latencies: Seq<u64>) -> LineView {
        match stage {
            Stage::GrindCoffee => LineView {
                grind: self.grind.worked(self.machine, latencies, self.water.takes()),
                water: self.water.fed_by(self.grind, self.machine, latencies, self.water.takes()),
                ..self
            },
            Stage::DispenseWater => LineView {
                water: self.water.worked(self.machine, latencies, self.press.takes()),
                press: self.press.fed_by(self.water, self.machine, latencies, self.press.takes()),
                ..self
            },
            Stage::PressEspresso => LineView {
                press: self.press.worked(self.machine, latencies, false),
                ..self
            },
            Stage::HeatMilk => LineView {
                milk: self.milk.worked(self.machine, latencies, self.froth.takes()),
                froth: self.froth.fed_by(self.milk, self.machine, latencies, self.froth.takes()),
                ..self
            },
            Stage::FrothMilk => LineView {
                froth: self.froth.worked(self.machine, latencies, false),
                ..self
            },
        }
    }

    /// The number of probes that the coffee branch makes in a run in which
    /// its probes meet `latencies`: one for each message that reaches each
    /// of its stations.
    pub open spec fn coffee_probes(self, latencies: Seq<u64>) -> nat {
        let water = self.water.fed_by(self.grind, self.machine, latencies, true);
        let at_water = latencies.skip(self.grind.inbox.len() as int);
        let press = self.press.fed_by(water, self.machine, at_water, true);
        self.grind.inbox.len() + water.inbox.len() + press.inbox.len()
    }

    /// The line after a run of the coffee branch in which its probes met
    /// `latencies`: the grinding works off what waits at the entry, the
    /// water station what waits there and what the grinding hands on, and
    /// the press likewise.
    pub open spec fn coffee_ran(self, latencies: Seq<u64>) -> LineView {
        let water = self.water.fed_by(self.grind, self.machine, latencies, true);
        let at_water = latencies.skip(self.grind.inbox.len() as int);
        let press = self.press.fed_by(water, self.machine, at_water, true);
        let at_press = at_water.skip(water.inbox.len() as int);
        LineView {
            grind: self.grind.worked(self.machine, latencies, true),
            water: water.worked(self.machine, at_water, true),
            press: press.worked(self.machine, at_press, true),
            ..self
        }
    }

    /// The number of probes that the milk branch makes in a run in which its
    /// probes meet `latencies`.
    pub open spec fn milk_probes(self, latencies: Seq<u64>) -> nat {
        self.milk.inbox.len() + self.froth.fed_by(
            self.milk,
            self.machine,
            latencies,
            true,
        ).inbox.len()
    }

    /// The line after a run of the milk branch in which its probes met
    /// `latencies`.
    pub open spec fn milk_ran(self, latencies: Seq<u64>) -> LineView {
        let froth = self.froth.fed_by(self.milk, self.machine, latencies, true);
        let at_froth = latencies.skip(self.milk.inbox.len() as int);
        LineView {
            milk: self.milk.worked(self.machine, latencies, true),
            froth: froth.worked(self.machine, at_froth, true),
            ..self
        }
    }

    /// The number of probes that a run makes in which the probes meet
    /// `latencies`.
    pub open spec fn probes(self, latencies: Seq<u64>) -> nat {
        self.coffee_probes(latencies) + self.milk_probes(
            latencies.skip(self.coffee_probes(latencies) as int),
        )
    }

    /// The line after a run in which the probes met `latencies`: the coffee
    /// branch runs first, the milk branch after it.
    pub open spec fn ran(self, latencies: Seq<u64>) -> LineView {
        self.coffee_ran(latencies).milk_ran(latencies.skip(self.coffee_probes(latencies) as int))
    }

    /// Three stations run one after the other are the coffee branch run.
    proof fn lemma_coffee_ran(
        self,
        grind: StationView,
        water_fed: StationView,
        water: StationView,
        press_fed: StationView,
        press: StationView,
        d0: Seq<u64>,
        d1: Seq<u64>,
        d2: Seq<u64>,
        d3: Seq<u64>,
    )
        requires
            self.wf(),
            drew(d0, d1, self.grind.inbox.len()),
            grind == self.grind.worked(self.machine, d1.skip(d0.len() as int), self.water.takes()),
            water_fed == self.water.fed_by(
                self.grind,
                self.machine,
                d1.skip(d0.len() as int),
                self.water.takes(),
            ),
            drew(d1, d2, water_fed.inbox.len()),
            water == water_fed.worked(self.machine, d2.skip(d1.len() as int), self.press.takes()),
            press_fed == self.press.fed_by(
                water_fed,
                self.machine,
                d2.skip(d1.len() as int),
                self.press.takes(),
            ),
            drew(d2, d3, press_fed.inbox.len()),
            press == press_fed.worked(self.machine, d3.skip(d2.len() as int), false),
        ensures
            drew(d0, d3, self.coffee_probes(d3.skip(d0.len() as int))),
            (LineView { grind, water, press, ..self }) == self.coffee_ran(d3.skip(d0.len() as int)),
            self.coffee_ran(d3.skip(d0.len() as int)).wf(),
    {
        let l = d3.skip(d0.len() as int);
        let g = self.grind.inbox.len();
        let w = water_fed.inbox.len();
        let p = press_fed.inbox.len();
        lemma_drew_more(d1, d2, d3, w, p);
        lemma_drew_more(d0, d1, d3, g, w + p);
        assert(l.skip(0) =~= l);
        lemma_station_in_run(
            self.grind.stage,
            self.machine,
            self.grind.timeout,
            self.grind.inbox,
            self.water.takes(),
            d0,
            d0,
            d1,
            d3,
            0,
        );
        assert(water_fed =~= self.water.fed_by(self.grind, self.machine, l, true));
        lemma_station_in_run(
            water_fed.stage,
            self.machine,
            water_fed.timeout,
            water_fed.inbox,
            self.press.takes(),
            d0,
            d1,
            d2,
            d3,
            g,
        );
        assert(press_fed =~= self.press.fed_by(water_fed, self.machine, l.skip(g as int), true));
        lemma_last_stage_sends_nothing(
            press_fed.stage,
            self.machine,
            press_fed.timeout,
            press_fed.inbox,
            d3.skip(d2.len() as int),
        );
        lemma_station_in_run(
            press_fed.stage,
            self.machine,
            press_fed.timeout,
            press_fed.inbox,
            true,
            d0,
            d2,
            d3,
            d3,
            g + w,
        );
        assert(l.skip((g + w) as int) =~= l.skip(g as int).skip(w as int));
        assert((LineView { grind, water, press, ..self }) =~= self.coffee_ran(l));
    }

    /// Two stations run one after the other are the milk branch run.
    proof fn lemma_milk_ran(
        self,
        milk: StationView,
        froth_fed: StationView,
        froth: StationView,
        d0: Seq<u64>,
        d1: Seq<u64>,
        d2: Seq<u64>,
    )
        requires
            self.wf(),
            drew(d0, d1, self.milk.inbox.len()),
            milk == self.milk.worked(self.machine, d1.skip(d0.len() as int), self.froth.takes()),
            froth_fed == self.froth.fed_by(
                self.milk,
                self.machine,
                d1.skip(d0.len() as int),
                self.froth.takes(),
            ),
            drew(d1, d2, froth_fed.inbox.len()),
            froth == froth_fed.worked(self.machine, d2.skip(d1.len() as int), false),
        ensures
            drew(d0, d2, self.milk_probes(d2.skip(d0.len() as int))),
            (LineView { milk, froth, ..self }) == self.milk_ran(d2.skip(d0.len() as int)),
            self.milk_ran(d2.skip(d0.len() as int)).wf(),
    {
        let l = d2.skip(d0.len() as int);
        let m = self.milk.inbox.len();
        let f = froth_fed.inbox.len();
        lemma_drew_more(d0, d1, d2, m, f);
        assert(l.skip(0) =~= l);
        lemma_station_in_run(
            self.milk.stage,
            self.machine,
            self.milk.timeout,
            self.milk.inbox,
            self.froth.takes(),
            d0,
            d0,
            d1,
            d2,
            0,
        );
        assert(froth_fed =~= self.froth.fed_by(self.milk, self.machine, l, true));
        lemma_last_stage_sends_nothing(
            froth_fed.stage,
            self.machine,
            froth_fed.timeout,
            froth_fed.inbox,
            d2.skip(d1.len() as int),
        );
        lemma_station_in_run(
            froth_fed.stage,
            self.machine,
            froth_fed.timeout,
            froth_fed.inbox,
            true,
            d0,
            d1,
            d2,
            d2,
            m,
        );
        assert((LineView { milk, froth, ..self }) =~= self.milk_ran(l));
    }

    /// A line whose entries are both closed is done after one run, whatever
    /// the probes meet and whatever fails on the way: every worker works off
    /// what reaches it, finds its link closed behind the last message and
    /// lets the completion barrier go.
    pub proof fn lemma_closed_line_drains(self, latencies: Seq<u64>)
        requires
            self.wf(),
            !self.grind.fed,
            !self.milk.fed,
        ensures
            self.ran(latencies).is_released(),
            self.ran(latencies).wf(),
    {
    }

    /// No order in which the stations are run keeps a closed line from
    /// draining: the run of any one station leaves the line one whose
    /// entries are closed, and a run of the whole line then finds every
    /// worker done.
    pub proof fn lemma_any_schedule_drains(self, stage: Stage, met: Seq<u64>, rest: Seq<u64>)
        requires
            self.wf(),
            !self.grind.fed,
            !self.milk.fed,
        ensures
            self.stage_ran(stage, met).wf(),
            !self.stage_ran(stage, met).grind.fed,
            !self.stage_ran(stage, met).milk.fed,
            self.stage_ran(stage, met).ran(rest).is_released(),
    {
        if !self.water.takes() {
            lemma_passed_on_needs_a_taker(
                self.grind.stage,
                self.machine,
                self.grind.timeout,
                self.grind.inbox,
                met,
            );
        }
        if !self.press.takes() {
            lemma_passed_on_needs_a_taker(
                self.water.stage,
                self.machine,
                self.water.timeout,
                self.water.inbox,
                met,
            );
        }
        if !self.froth.takes() {
            lemma_passed_on_needs_a_taker(
                self.milk.stage,
                self.machine,
                self.milk.timeout,
                self.milk.inbox,
                met,
            );
        }
        self.stage_ran(stage, met).lemma_closed_line_drains(rest);
    }

    /// With a timeout that no latency exceeds and stock for every cup, a
    /// closed line serves every order that waits at its entries: after one
    /// run every worker is done, every stage has written the line of its
    /// success for every client in turn, and five probes were made for each
    /// order. The latencies must be those of the probes that such a run
    /// makes, or enough for five probes for each order.
    pub proof fn lemma_ready_line_serves_all(
        machine: Machine,
        timeout: usize,
        orders: Seq<ChannelData>,
        latencies: Seq<u64>,
    )
        requires
            timeout >= MAX_LATENCY,
            5 * orders.len() <= latencies.len() || Self::loaded(
                machine,
                timeout,
                orders,
            ).closed().probes(latencies) <= latencies.len(),
            forall|i: int|
                0 <= i < latencies.len() && i < 5 * orders.len() ==> drawable(
                    #[trigger] latencies[i],
                ),
            forall|i: int|
                0 <= i < orders.len() ==> stocked_throughout(machine, #[trigger] orders[i]),
        ensures
            Self::loaded(machine, timeout, orders).closed().probes(latencies) == 5 * orders.len(),
            Self::loaded(machine, timeout, orders).closed().ran(latencies).is_released(),
            forall|stage: Stage|
                (#[trigger] Self::loaded(machine, timeout, orders).closed().ran(latencies).station(
                    stage,
                )).log == Seq::new(orders.len(), |i: int| stage.success_text(orders[i].0)),
    {
        let n = orders.len() as int;
        let line = Self::loaded(machine, timeout, orders).closed();
        let stripped = Seq::new(orders.len(), |i: int| (orders[i].0, None::<Size>));
        // Grinding: every order goes on as it came.
        assert(n <= latencies.len());
        assert forall|i: int| 0 <= i < n implies stocked_at(
            Stage::GrindCoffee,
            machine,
            #[trigger] orders[i],
        ) by {}
        lemma_ready_stage_succeeds(Stage::GrindCoffee, machine, timeout, orders, latencies);
        let water = line.water.fed_by(line.grind, machine, latencies, true);
        assert(water.inbox =~= orders);
        // Water: every order goes on without its size.
        assert(2 * n <= latencies.len());
        let at_water = latencies.skip(n);
        assert forall|i: int| 0 <= i < n implies stocked_at(
            Stage::DispenseWater,
            machine,
            #[trigger] orders[i],
        ) by {}
        assert forall|i: int| 0 <= i < n implies drawable(#[trigger] at_water[i]) by {
            assert(at_water[i] == latencies[n + i]);
        }
        lemma_ready_stage_succeeds(Stage::DispenseWater, machine, timeout, orders, at_water);
        let press = line.press.fed_by(water, machine, at_water, true);
        assert(press.inbox =~= stripped);
        // Pressing.
        assert(3 * n <= latencies.len());
        let at_press = at_water.skip(n);
        assert forall|i: int| 0 <= i < n implies drawable(#[trigger] at_press[i]) by {
            assert(at_press[i] == latencies[2 * n + i]);
        }
        lemma_ready_stage_succeeds(Stage::PressEspresso, machine, timeout, stripped, at_press);
        assert(line.coffee_probes(latencies) == 3 * n);
        let coffee = line.coffee_ran(latencies);
        // Milk: every order goes on without its size.
        assert(4 * n <= latencies.len());
        let at_milk = latencies.skip(3 * n);
        assert forall|i: int| 0 <= i < n implies stocked_at(
            Stage::HeatMilk,
            machine,
            #[trigger] orders[i],
        ) by {}
        assert forall|i: int| 0 <= i < n implies drawable(#[trigger] at_milk[i]) by {
            assert(at_milk[i] == latencies[3 * n + i]);
        }
        lemma_ready_stage_succeeds(Stage::HeatMilk, machine, timeout, orders, at_milk);
        let froth = coffee.froth.fed_by(coffee.milk, machine, at_milk, true);
        assert(froth.inbox =~= stripped);
        // Frothing.
        assert(5 * n <= latencies.len());
        let at_froth = at_milk.skip(n);
        assert forall|i: int| 0 <= i < n implies drawable(#[trigger] at_froth[i]) by {
            assert(at_froth[i] == latencies[4 * n + i]);
        }
        lemma_ready_stage_succeeds(Stage::FrothMilk, machine, timeout, stripped, at_froth);
        let after = line.ran(latencies);
        assert forall|stage: Stage| (#[trigger] after.station(stage)).log == Seq::new(
            orders.len(),
            |i: int| stage.success_text(orders[i].0),
        ) by {
            let served = Seq::new(orders.len(), |i: int| stage.success_text(orders[i].0));
            assert(Seq::new(stripped.len(), |i: int| stage.success_text(stripped[i].0))
                =~= served);
            assert(Seq::<Seq<char>>::empty() + served =~= served);
        }
    }

    /// A coffee branch whose entry is closed with nothing on its way is done
    /// after one run, and no worker has made a probe or written a line.
    pub proof fn lemma_empty_coffee_branch_drains(self, latencies: Seq<u64>)
        requires
            self.wf(),
            !self.grind.fed,
            self.grind.inbox.len() == 0,
            self.water.inbox.len() == 0,
            self.press.inbox.len() == 0,
        ensures
            self.coffee_probes(latencies) == 0,
            self.coffee_ran(latencies).grind.state == StageState::Drained,
            self.coffee_ran(latencies).water.state == StageState::Drained,
            self.coffee_ran(latencies).press.state == StageState::Drained,
            self.coffee_ran(latencies).grind.log == self.grind.log,
            self.coffee_ran(latencies).water.log == self.water.log,
            self.coffee_ran(latencies).press.log == self.press.log,
    {
        let water = self.water.fed_by(self.grind, self.machine, latencies, true);
        assert(water.inbox =~= self.water.inbox);
        let at_water = latencies.skip(0);
        let press = self.press.fed_by(water, self.machine, at_water, true);
        assert(press.inbox =~= self.press.inbox);
        assert(self.coffee_ran(latencies).grind.log =~= self.grind.log);
        assert(self.coffee_ran(latencies).water.log =~= self.water.log);
        assert(self.coffee_ran(latencies).press.log =~= self.press.log);
    }

    /// A milk branch whose entry is closed with nothing on its way is done
    /// after one run, and no worker has made a probe or written a line.
    pub proof fn lemma_empty_milk_branch_drains(self, latencies: Seq<u64>)
        requires
            self.wf(),
            !self.milk.fed,
            self.milk.inbox.len() == 0,
            self.froth.inbox.len() == 0,
        ensures
            self.milk_probes(latencies) == 0,
            self.milk_ran(latencies).milk.state == StageState::Drained,
            self.milk_ran(latencies).froth.state == StageState::Drained,
            self.milk_ran(latencies).milk.log == self.milk.log,
            self.milk_ran(latencies).froth.log == self.froth.log,
    {
        let froth = self.froth.fed_by(self.milk, self.machine, latencies, true);
        assert(froth.inbox =~= self.froth.inbox);
        assert(self.milk_ran(latencies).milk.log =~= self.milk.log);
        assert(self.milk_ran(latencies).froth.log =~= self.froth.log);
    }

    /// What the coffee branch does in a run depends on no latency but those
    /// of its own probes.
    pub proof fn lemma_coffee_reads_its_latencies(self, a: Seq<u64>, b: Seq<u64>)
        requires
            self.coffee_probes(a) <= a.len(),
            self.coffee_probes(a) <= b.len(),
            forall|i: int| 0 <= i < self.coffee_probes(a) ==> a[i] == b[i],
        ensures
            self.coffee_probes(a) == self.coffee_probes(b),
            self.coffee_ran(a) == self.coffee_ran(b),
    {
        let g = self.grind.inbox.len() as int;
        lemma_passed_on_reads_its_latencies(
            self.grind.stage,
            self.machine,
            self.grind.timeout,
            self.grind.inbox,
            a,
            b,
            true,
        );
        lemma_lines_of_reads_its_latencies(
            self.grind.stage,
            self.machine,
            self.grind.timeout,
            self.grind.inbox,
            a,
            b,
            true,
        );
        let water = self.water.fed_by(self.grind, self.machine, a, true);
        let w = water.inbox.len() as int;
        assert forall|i: int| 0 <= i < w implies a.skip(g)[i] == b.skip(g)[i] by {
            assert(a.skip(g)[i] == a[g + i]);
        }
        lemma_passed_on_reads_its_latencies(
            water.stage,
            self.machine,
            water.timeout,
            water.inbox,
            a.skip(g),
            b.skip(g),
            true,
        );
        lemma_lines_of_reads_its_latencies(
            water.stage,
            self.machine,
            water.timeout,
            water.inbox,
            a.skip(g),
            b.skip(g),
            true,
        );
        let press = self.press.fed_by(water, self.machine, a.skip(g), true);
        assert forall|i: int| 0 <= i < press.inbox.len() implies a.skip(g).skip(w)[i] == b.skip(
            g,
        ).skip(w)[i] by {
            assert(a.skip(g).skip(w)[i] == a[g + w + i]);
        }
        lemma_lines_of_reads_its_latencies(
            press.stage,
            self.machine,
            press.timeout,
            press.inbox,
            a.skip(g).skip(w),
            b.skip(g).skip(w),
            true,
        );
    }
}

/// The line: one machine, and the five stations that work on its orders.
pub struct Pipeline {
    machine: Machine,
    timeout: usize,
    grind: Station,
    water: Station,
    press: Station,
    milk: Station,
    froth: Station,
}

impl View for Pipeline {
    type V = LineView;

    closed spec fn view(&self) -> LineView {
        LineView {
            machine: self.machine,
            timeout: self.timeout,
            grind: self.grind@,
            water: self.water@,
            press: self.press@,
            milk: self.milk@,
            froth: self.froth@,
        }
    }
}

impl Pipeline {
    /// Whether every worker attends to its link.
    pub closed spec fn attends(&self) -> bool {
        &&& self.grind.attends()
        &&& self.water.attends()
        &&& self.press.attends()
        &&& self.milk.attends()
        &&& self.froth.attends()
    }

    /// A line between two runs, each of whose workers attends to its link.
    pub open spec fn wf(&self) -> bool {
        &&& self@.wf()
        &&& self.attends()
    }

    /// A line with all workers waiting, both entries open and nothing sent.
    pub fn new(machine: Machine, timeout: usize) -> (line: Self)
        ensures
            line.wf(),
            line@ == LineView::idle(machine, timeout),
    {
        Pipeline {
            machine,
            timeout,
            grind: Station::new(Stage::GrindCoffee, timeout),
            water: Station::new(Stage::DispenseWater, timeout),
            press: Station::new(Stage::PressEspresso, timeout),
            milk: Station::new(Stage::HeatMilk, timeout),
            froth: Station::new(Stage::FrothMilk, timeout),
        }
    }

    /// Starts an admitted order on both branches and tells how that went.
    pub fn start(&mut self, client_id: usize, size: Size) -> (lines: Vec<String>)
        requires
            old(self).wf(),
        ensures
            final(self).wf(),
            final(self)@ == old(self)@.started(client_id, size),
            texts(lines@) == start_texts(
                old(self)@.timeout,
                client_id,
                old(self)@.grind.takes(),
                old(self)@.milk.takes(),
            ),
    {
        let lines = Station::start(&mut self.grind, &mut self.milk, self.timeout, client_id, size);
        assert(self@ =~= old(self)@.started(client_id, size));
        lines
    }

    /// Closes both entries: no order can be started any more, and each worker
    /// is done once it has worked off what still reaches it.
    pub fn close_entries(&mut self)
        requires
            old(self).wf(),
        ensures
            final(self).wf(),
            final(self)@ == old(self)@.closed(),
    {
        self.grind.close();
        self.milk.close();
    }

    /// Lets the station of `stage` alone work off what has reached it. The
    /// stations may be run in any order and any number of times: the line
    /// stays one that a last run of the whole drains once its entries are
    /// closed.
    pub fn run_stage<L: LatencySource>(&mut self, stage: Stage, source: &mut L)
        requires
            old(self).wf(),
        ensures
            final(self).wf(),
            drew(old(source).drawn(), final(source).drawn(), old(self)@.station(stage).inbox.len()),
            final(self)@ == old(self)@.stage_ran(
                stage,
                since(old(source).drawn(), final(source).drawn()),
            ),
    {
        match stage {
            Stage::GrindCoffee => self.grind.run_relay(&mut self.water, &self.machine, source),
            Stage::DispenseWater => self.water.run_relay(&mut self.press, &self.machine, source),
            Stage::PressEspresso => self.press.run_sink(&self.machine, source),
            Stage::HeatMilk => self.milk.run_relay(&mut self.froth, &self.machine, source),
            Stage::FrothMilk => self.froth.run_sink(&self.machine, source),
        }
        proof {
            let met = since(old(source).drawn(), source.drawn());
            assert(self@ =~= old(self)@.stage_ran(stage, met));
        }
    }

    /// Runs the three stations of the coffee branch, from the entry on.
    fn run_coffee<L: LatencySource>(&mut self, source: &mut L)
        requires
            old(self).wf(),
        ensures
            final(self).wf(),
            drew(
                old(source).drawn(),
                final(source).drawn(),
                old(self)@.coffee_probes(
                    since(old(source).drawn(), final(source).drawn()),
                ),
            ),
            final(self)@ == old(self)@.coffee_ran(
                since(old(source).drawn(), final(source).drawn()),
            ),
    {
        let ghost d0 = source.drawn();
        let ghost line = self@;
        self.grind.run_relay(&mut self.water, &self.machine, source);
        let ghost d1 = source.drawn();
        let ghost grind = self.grind@;
        let ghost water_fed = self.water@;
        self.water.run_relay(&mut self.press, &self.machine, source);
        let ghost d2 = source.drawn();
        let ghost water = self.water@;
        let ghost press_fed = self.press@;
        self.press.run_sink(&self.machine, source);
        let ghost d3 = source.drawn();
        proof {
            line.lemma_coffee_ran(
                grind,
                water_fed,
                water,
                press_fed,
                self.press@,
                d0,
                d1,
                d2,
                d3,
            );
        }
    }

    /// Runs the two stations of the milk branch, from the entry on.
    fn run_milk<L: LatencySource>(&mut self, source: &mut L)
        requires
            old(self).wf(),
        ensures
            final(self).wf(),
            drew(
                old(source).drawn(),
                final(source).drawn(),
                old(self)@.milk_probes(
                    since(old(source).drawn(), final(source).drawn()),
                ),
            ),
            final(self)@ == old(self)@.milk_ran(
                since(old(source).drawn(), final(source).drawn()),
            ),
    {
        let ghost d0 = source.drawn();
        let ghost line = self@;
        self.milk.run_relay(&mut self.froth, &self.machine, source);
        let ghost d1 = source.drawn();
        let ghost milk = self.milk@;
        let ghost froth_fed = self.froth@;
        self.froth.run_sink(&self.machine, source);
        let ghost d2 = source.drawn();
        proof {
            line.lemma_milk_ran(milk, froth_fed, self.froth@, d0, d1, d2);
        }
    }

    /// Lets every station work off what reaches it, one station after the
    /// other and each branch from its entry on. A branch whose entry is
    /// closed is done after the run: none of its workers waits for ever.
    pub fn run<L: LatencySource>(&mut self, source: &mut L)
        requires
            old(self).wf(),
        ensures
            final(self).wf(),
            drew(
                old(source).drawn(),
                final(source).drawn(),
                old(self)@.probes(since(old(source).drawn(), final(source).drawn())),
            ),
            final(self)@ == old(self)@.ran(
                since(old(source).drawn(), final(source).drawn()),
            ),
            !old(self)@.grind.fed && !old(self)@.milk.fed ==> final(self)@.is_released(),
    {
        let ghost d0 = source.drawn();
        let ghost line = self@;
        self.run_coffee(source);
        let ghost d1 = source.drawn();
        self.run_milk(source);
        let ghost d2 = source.drawn();
        proof {
            let l = d2.skip(d0.len() as int);
            let coffee = d1.skip(d0.len() as int);
            let milk = d2.skip(d1.len() as int);
            let c = line.coffee_probes(coffee);
            let m = line.coffee_ran(coffee).milk_probes(milk);
            lemma_drew_more(d0, d1, d2, c, m);
            assert forall|i: int| 0 <= i < c implies coffee[i] == l[i] by {}
            line.lemma_coffee_reads_its_latencies(coffee, l);
            assert(l.skip(c as int) =~= milk);
            if !line.grind.fed && !line.milk.fed {
                line.lemma_closed_line_drains(l);
            }
        }
    }

    /// The machine that the line works on.
    pub fn machine(&self) -> (machine: &Machine)
        ensures
            *machine == self@.machine,
    {
        &self.machine
    }

    /// The timeout of the probes that the stages make.
    pub fn timeout(&self) -> (timeout: usize)
        ensures
            timeout == self@.timeout,
    {
        self.timeout
    }

    /// Whether every worker is done.
    pub fn released(&self) -> (released: bool)
        ensures
            released == self@.is_released(),
    {
        let released = self.grind.is_drained() && self.water.is_drained()
            && self.press.is_drained() && self.milk.is_drained() && self.froth.is_drained();
        proof {
            if !released {
                assert(self@.station(Stage::GrindCoffee) == self.grind@);
                assert(self@.station(Stage::DispenseWater) == self.water@);
                assert(self@.station(Stage::PressEspresso) == self.press@);
                assert(self@.station(Stage::HeatMilk) == self.milk@);
                assert(self@.station(Stage::FrothMilk) == self.froth@);
            }
        }
        released
    }

    /// The station of `stage`.
    pub fn at(&self, stage: Stage) -> (station: &Station)
        ensures
            station@ == self@.station(stage),
    {
        match stage {
            Stage::GrindCoffee => &self.grind,
            Stage::DispenseWater => &self.water,
            Stage::PressEspresso => &self.press,
            Stage::HeatMilk => &self.milk,
            Stage::FrothMilk => &self.froth,
        }
    }
}

} // verus!
