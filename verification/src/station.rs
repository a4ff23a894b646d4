//! One station of the line: a worker with the link that feeds it and the
//! lines that it has written, and the run that lets the worker work off what
//! has reached the station.

use crate::latency::{drawable, drew, lemma_drew_more, since, LatencySource, MAX_LATENCY};
use crate::link::{ChannelData, Delivery, Link};
use crate::machine_components::{
    verdict, Capacity, CoffeeHopper, Machine, MilkTank, Size, WaterTank,
};
use crate::message_based::{start_coffee_maker, start_texts};
use crate::stage::{reports, Stage, StageAction, StageEvent, StageState, StageWorker};
use crate::text::texts;
use vstd::prelude::*;

verus! {

/// What becomes of one message at a stage, for a probe that met `latency`:
/// the line that the stage writes and the message that it hands on, if any.
/// `taken` says whether the link to the next stage takes a send.
pub open spec fn handled(
    stage: Stage,
    machine: Machine,
    timeout: usize,
    msg: ChannelData,
    latency: u64,
    taken: bool,
) -> (Seq<char>, Option<ChannelData>) {
    match stage.job(machine, latency, timeout, msg.1) {
        Err(cause) => (cause, None),
        Ok(_) => if stage.successor() is None {
            (stage.success_text(msg.0), None)
        } else if taken {
            (stage.success_text(msg.0), Some(stage.forwarded(msg)))
        } else {
            (Link::undeliverable(), None)
        },
    }
}

/// The lines that a stage writes for the messages of `inbox`, one each, where
/// the probe for the message at place `i` met `latencies[i]`.
pub open spec fn lines_of(
    stage: Stage,
    machine: Machine,
    timeout: usize,
    inbox: Seq<ChannelData>,
    latencies: Seq<u64>,
    taken: bool,
) -> Seq<Seq<char>> {
    Seq::new(
        inbox.len(),
        |i: int| handled(stage, machine, timeout, inbox[i], latencies[i], taken).0,
    )
}

/// The messages that a stage hands on for the messages of `inbox`, in their
/// order, where the probe for the message at place `i` met `latencies[i]`.
pub open spec fn passed_on(
    stage: Stage,
    machine: Machine,
    timeout: usize,
    inbox: Seq<ChannelData>,
    latencies: Seq<u64>,
    taken: bool,
) -> Seq<ChannelData>
    decreases inbox.len(),
{
    if inbox.len() == 0 {
        Seq::empty()
    } else {
        let before = passed_on(stage, machine, timeout, inbox.drop_last(), latencies, taken);
        match handled(
            stage,
            machine,
            timeout,
            inbox.last(),
            latencies[inbox.len() - 1],
            taken,
        ).1 {
            Some(msg) => before.push(msg),
            None => before,
        }
    }
}

/// Whether the stage's job succeeds for the message at place `i` of `inbox`,
/// where its probe meets `latencies[i]`.
pub open spec fn succeeds_at(
    stage: Stage,
    machine: Machine,
    timeout: usize,
    inbox: Seq<ChannelData>,
    latencies: Seq<u64>,
    i: int,
) -> bool {
    stage.job(machine, latencies[i], timeout, inbox[i].1) is Ok
}

/// No message vanishes at a stage. For each one the stage writes one line:
/// the cause for which the cup was dropped, or the line of its success, or,
/// where the send was not taken, the cause of that.
pub proof fn lemma_every_message_is_answered(
    stage: Stage,
    machine: Machine,
    timeout: usize,
    inbox: Seq<ChannelData>,
    latencies: Seq<u64>,
    taken: bool,
)
    ensures
        lines_of(stage, machine, timeout, inbox, latencies, taken).len() == inbox.len(),
        forall|i: int|
            0 <= i < inbox.len() ==> (#[trigger] lines_of(
                stage,
                machine,
                timeout,
                inbox,
                latencies,
                taken,
            )[i]) == match stage.job(machine, latencies[i], timeout, inbox[i].1) {
                Err(cause) => cause,
                Ok(_) => if stage.successor() is Some && !taken {
                    Link::undeliverable()
                } else {
                    stage.success_text(inbox[i].0)
                },
            },
{
}

/// Whether `msg` is what the stage hands on for a message of `inbox` for
/// which its job succeeds.
pub open spec fn comes_of_success(
    stage: Stage,
    machine: Machine,
    timeout: usize,
    inbox: Seq<ChannelData>,
    latencies: Seq<u64>,
    msg: ChannelData,
) -> bool {
    exists|i: int|
        0 <= i < inbox.len() && #[trigger] succeeds_at(stage, machine, timeout, inbox, latencies, i)
            && msg == stage.forwarded(inbox[i])
}

/// A stage hands on the messages for which its job succeeds, and no others:
/// a cup that is dropped goes no further, and a cup that is not dropped is
/// not held back.
pub proof fn lemma_success_is_handed_on(
    stage: Stage,
    machine: Machine,
    timeout: usize,
    inbox: Seq<ChannelData>,
    latencies: Seq<u64>,
)
    requires
        stage.successor() is Some,
    ensures
        forall|k: int|
            0 <= k < passed_on(stage, machine, timeout, inbox, latencies, true).len()
                ==> comes_of_success(
                stage,
                machine,
                timeout,
                inbox,
                latencies,
                #[trigger] passed_on(stage, machine, timeout, inbox, latencies, true)[k],
            ),
        forall|i: int|
            0 <= i < inbox.len() && #[trigger] succeeds_at(
                stage,
                machine,
                timeout,
                inbox,
                latencies,
                i,
            ) ==> passed_on(stage, machine, timeout, inbox, latencies, true).contains(
                stage.forwarded(inbox[i]),
            ),
    decreases inbox.len(),
{
    if inbox.len() > 0 {
        let shorter = inbox.drop_last();
        let last = inbox.len() - 1;
        let before = passed_on(stage, machine, timeout, shorter, latencies, true);
        let passed = passed_on(stage, machine, timeout, inbox, latencies, true);
        lemma_success_is_handed_on(stage, machine, timeout, shorter, latencies);
        assert forall|k: int| 0 <= k < passed.len() implies comes_of_success(
            stage,
            machine,
            timeout,
            inbox,
            latencies,
            #[trigger] passed[k],
        ) by {
            if k < before.len() {
                assert(comes_of_success(stage, machine, timeout, shorter, latencies, before[k]));
                let i = choose|i: int|
                    0 <= i < shorter.len() && #[trigger] succeeds_at(
                        stage,
                        machine,
                        timeout,
                        shorter,
                        latencies,
                        i,
                    ) && before[k] == stage.forwarded(shorter[i]);
                assert(succeeds_at(stage, machine, timeout, inbox, latencies, i));
            } else {
                assert(succeeds_at(stage, machine, timeout, inbox, latencies, last));
            }
        }
        assert forall|i: int|
            0 <= i < inbox.len() && #[trigger] succeeds_at(
                stage,
                machine,
                timeout,
                inbox,
                latencies,
                i,
            ) implies passed.contains(stage.forwarded(inbox[i])) by {
            if i < last {
                assert(succeeds_at(stage, machine, timeout, shorter, latencies, i));
                let k = choose|k: int|
                    0 <= k < before.len() && before[k] == stage.forwarded(shorter[i]);
                assert(passed[k] == stage.forwarded(inbox[i]));
            } else {
                assert(passed[before.len() as int] == stage.forwarded(inbox[i]));
            }
        }
    }
}

/// What a stage hands on depends on no latency but those of its own probes.
pub proof fn lemma_passed_on_reads_its_latencies(
    stage: Stage,
    machine: Machine,
    timeout: usize,
    inbox: Seq<ChannelData>,
    a: Seq<u64>,
    b: Seq<u64>,
    taken: bool,
)
    requires
        forall|i: int| 0 <= i < inbox.len() ==> a[i] == b[i],
    ensures
        passed_on(stage, machine, timeout, inbox, a, taken) == passed_on(
            stage,
            machine,
            timeout,
            inbox,
            b,
            taken,
        ),
    decreases inbox.len(),
{
    if inbox.len() > 0 {
        lemma_passed_on_reads_its_latencies(
            stage,
            machine,
            timeout,
            inbox.drop_last(),
            a,
            b,
            taken,
        );
    }
}

/// What a stage writes depends on no latency but those of its own probes.
pub proof fn lemma_lines_of_reads_its_latencies(
    stage: Stage,
    machine: Machine,
    timeout: usize,
    inbox: Seq<ChannelData>,
    a: Seq<u64>,
    b: Seq<u64>,
    taken: bool,
)
    requires
        forall|i: int| 0 <= i < inbox.len() ==> a[i] == b[i],
    ensures
        lines_of(stage, machine, timeout, inbox, a, taken) == lines_of(
            stage,
            machine,
            timeout,
            inbox,
            b,
            taken,
        ),
{
    assert(lines_of(stage, machine, timeout, inbox, a, taken) =~= lines_of(
        stage,
        machine,
        timeout,
        inbox,
        b,
        taken,
    ));
}

/// Whether the machine holds what the stage takes for the cup of `msg`: a
/// stage whose subsystem holds no material takes none, nor does a message
/// without a size.
pub open spec fn stocked_at(stage: Stage, machine: Machine, msg: ChannelData) -> bool {
    match msg.1 {
        Some(size) => match stage {
            Stage::GrindCoffee => CoffeeHopper::needed(size) <= machine.hopper.remaining(),
            Stage::DispenseWater => WaterTank::needed(size) <= machine.water.remaining(),
            Stage::HeatMilk => MilkTank::needed(size) <= machine.milk.remaining(),
            _ => true,
        },
        None => true,
    }
}

/// Whether `msg` is an order as it enters the line, with a size of which the
/// machine holds enough in hopper and tanks.
pub open spec fn stocked_throughout(machine: Machine, msg: ChannelData) -> bool {
    match msg.1 {
        Some(size) => machine.stocked_for(size),
        None => false,
    }
}

/// With a timeout that no latency exceeds and stock for every cup, a stage
/// succeeds on every message: it writes the line of its success for each
/// client in turn and, where a stage follows and takes it, hands every
/// message on.
pub proof fn lemma_ready_stage_succeeds(
    stage: Stage,
    machine: Machine,
    timeout: usize,
    inbox: Seq<ChannelData>,
    latencies: Seq<u64>,
)
    requires
        timeout >= MAX_LATENCY,
        forall|i: int| 0 <= i < inbox.len() ==> drawable(#[trigger] latencies[i]),
        forall|i: int| 0 <= i < inbox.len() ==> stocked_at(stage, machine, #[trigger] inbox[i]),
    ensures
        lines_of(stage, machine, timeout, inbox, latencies, true) == Seq::new(
            inbox.len(),
            |i: int| stage.success_text(inbox[i].0),
        ),
        passed_on(stage, machine, timeout, inbox, latencies, true) == if stage.successor()
            is Some {
            Seq::new(inbox.len(), |i: int| stage.forwarded(inbox[i]))
        } else {
            Seq::empty()
        },
    decreases inbox.len(),
{
    assert forall|i: int| 0 <= i < inbox.len() implies (#[trigger] stage.job(
        machine,
        latencies[i],
        timeout,
        inbox[i].1,
    )) is Ok by {
        assert(drawable(latencies[i]));
        assert(stocked_at(stage, machine, inbox[i]));
    }
    assert(lines_of(stage, machine, timeout, inbox, latencies, true) =~= Seq::new(
        inbox.len(),
        |i: int| stage.success_text(inbox[i].0),
    ));
    if inbox.len() > 0 {
        let shorter = inbox.drop_last();
        assert forall|i: int| 0 <= i < shorter.len() implies stocked_at(
            stage,
            machine,
            #[trigger] shorter[i],
        ) by {
            assert(shorter[i] == inbox[i]);
        }
        lemma_ready_stage_succeeds(stage, machine, timeout, shorter, latencies);
        let last = inbox.len() - 1;
        assert(stage.job(machine, latencies[last], timeout, inbox[last].1) is Ok);
        if stage.successor() is Some {
            assert(passed_on(stage, machine, timeout, inbox, latencies, true) =~= Seq::new(
                inbox.len(),
                |i: int| stage.forwarded(inbox[i]),
            ));
        }
    } else {
        assert(passed_on(stage, machine, timeout, inbox, latencies, true) =~= Seq::new(
            inbox.len(),
            |i: int| stage.forwarded(inbox[i]),
        ));
    }
}

/// What a station writes and hands on in a run of the whole line, read off
/// the latencies of that run: the station's own probes are those from place
/// `first` on, and where anything reaches the station its link to the next
/// takes what it sends.
pub(crate) proof fn lemma_station_in_run(
    stage: Stage,
    machine: Machine,
    timeout: usize,
    inbox: Seq<ChannelData>,
    taken: bool,
    start: Seq<u64>,
    before: Seq<u64>,
    after: Seq<u64>,
    end: Seq<u64>,
    first: nat,
)
    requires
        before.len() == start.len() + first,
        after.len() == before.len() + inbox.len(),
        after.len() <= end.len(),
        forall|i: int| 0 <= i < after.len() ==> end[i] == after[i],
        inbox.len() > 0 ==> taken,
    ensures
        lines_of(stage, machine, timeout, inbox, after.skip(before.len() as int), taken)
            == lines_of(
            stage,
            machine,
            timeout,
            inbox,
            end.skip(start.len() as int).skip(first as int),
            true,
        ),
        passed_on(stage, machine, timeout, inbox, after.skip(before.len() as int), taken)
            == passed_on(
            stage,
            machine,
            timeout,
            inbox,
            end.skip(start.len() as int).skip(first as int),
            true,
        ),
{
    let own = after.skip(before.len() as int);
    let read = end.skip(start.len() as int).skip(first as int);
    assert forall|i: int| 0 <= i < inbox.len() implies own[i] == read[i] by {
        assert(read[i] == end[start.len() + first + i]);
    }
    if inbox.len() > 0 {
        lemma_lines_of_reads_its_latencies(stage, machine, timeout, inbox, own, read, true);
        lemma_passed_on_reads_its_latencies(stage, machine, timeout, inbox, own, read, true);
    } else {
        assert(lines_of(stage, machine, timeout, inbox, own, taken) =~= lines_of(
            stage,
            machine,
            timeout,
            inbox,
            read,
            true,
        ));
    }
}

/// What a stage without a successor writes does not depend on whether a send
/// would be taken: it makes none.
pub proof fn lemma_last_stage_sends_nothing(
    stage: Stage,
    machine: Machine,
    timeout: usize,
    inbox: Seq<ChannelData>,
    latencies: Seq<u64>,
)
    requires
        stage.successor() is None,
    ensures
        lines_of(stage, machine, timeout, inbox, latencies, false) == lines_of(
            stage,
            machine,
            timeout,
            inbox,
            latencies,
            true,
        ),
{
    assert(lines_of(stage, machine, timeout, inbox, latencies, false) =~= lines_of(
        stage,
        machine,
        timeout,
        inbox,
        latencies,
        true,
    ));
}

/// A stage hands nothing on over a link that takes no send.
pub proof fn lemma_passed_on_needs_a_taker(
    stage: Stage,
    machine: Machine,
    timeout: usize,
    inbox: Seq<ChannelData>,
    latencies: Seq<u64>,
)
    ensures
        passed_on(stage, machine, timeout, inbox, latencies, false) == Seq::<ChannelData>::empty(),
    decreases inbox.len(),
{
    if inbox.len() > 0 {
        lemma_passed_on_needs_a_taker(stage, machine, timeout, inbox.drop_last(), latencies);
    }
}

/// A station as the contracts see it.
#[verifier::ext_equal]
pub struct StationView {
    /// The stage that the station serves.
    pub stage: Stage,
    /// The timeout of the probes that its jobs make.
    pub timeout: usize,
    /// Where its worker stands.
    pub state: StageState,
    /// The messages that have reached the station and wait for its worker,
    /// oldest first.
    pub inbox: Seq<ChannelData>,
    /// Whether more messages may reach the station: the producer's end of
    /// its inbound link is still held.
    pub fed: bool,
    /// The lines that the station has written, oldest first.
    pub log: Seq<Seq<char>>,
}

impl StationView {
    /// A station between two runs: its worker waits or is done, and once it
    /// is done nothing waits for it and nothing more can reach it.
    pub open spec fn wf(self) -> bool {
        &&& self.state == StageState::Running || self.state == StageState::Drained
        &&& self.state == StageState::Drained ==> self.inbox.len() == 0 && !self.fed
    }

    /// Whether the station, between two runs, serves `stage` with `timeout`.
    pub open spec fn serves(self, stage: Stage, timeout: usize) -> bool {
        &&& self.wf()
        &&& self.stage == stage
        &&& self.timeout == timeout
    }

    /// Whether a send to the station is taken: more may reach it, and its
    /// worker is there to receive.
    pub open spec fn takes(self) -> bool {
        self.fed && self.state == StageState::Running
    }

    /// A station that waits, with nothing sent to it and nothing written.
    pub open spec fn idle(stage: Stage, timeout: usize) -> StationView {
        StationView {
            stage,
            timeout,
            state: StageState::Running,
            inbox: Seq::empty(),
            fed: true,
            log: Seq::empty(),
        }
    }

    /// The station after `msg` was sent to it.
    pub open spec fn sent(self, msg: ChannelData) -> StationView {
        if self.takes() {
            StationView { inbox: self.inbox.push(msg), ..self }
        } else {
            self
        }
    }

    /// The station after the producer's end of its inbound link was let go.
    pub open spec fn closed(self) -> StationView {
        StationView { fed: false, ..self }
    }

    /// The station after its worker has worked off what had reached it, with
    /// probes that met `latencies`: a line is written for each message, and
    /// the worker is done if no more can come.
    pub open spec fn worked(self, machine: Machine, latencies: Seq<u64>, taken: bool)
        -> StationView {
        StationView {
            inbox: Seq::empty(),
            log: self.log + lines_of(
                self.stage,
                machine,
                self.timeout,
                self.inbox,
                latencies,
                taken,
            ),
            state: if self.fed {
                self.state
            } else {
                StageState::Drained
            },
            ..self
        }
    }

    /// The station after the station `before` it has worked off what had
    /// reached that one: what `before` hands on waits here now, and where
    /// the worker of `before` is done no more can come.
    pub open spec fn fed_by(
        self,
        before: StationView,
        machine: Machine,
        latencies: Seq<u64>,
        taken: bool,
    ) -> StationView {
        StationView {
            inbox: self.inbox + passed_on(
                before.stage,
                machine,
                before.timeout,
                before.inbox,
                latencies,
                taken,
            ),
            fed: self.fed && (before.fed || before.state == StageState::Drained),
            ..self
        }
    }
}

/// One stage of the line: its worker, the link that feeds it and the lines
/// that it has written.
pub struct Station {
    worker: StageWorker,
    inbound: Link,
    log: Vec<String>,
}

impl View for Station {
    type V = StationView;

    closed spec fn view(&self) -> StationView {
        StationView {
            stage: self.worker.stage,
            timeout: self.worker.timeout,
            state: self.worker.state,
            inbox: self.inbound.in_flight(),
            fed: self.inbound.is_open(),
            log: texts(self.log@),
        }
    }
}

impl Station {
    /// Whether the worker holds its end of the inbound link for exactly as
    /// long as it waits.
    pub closed spec fn attends(&self) -> bool {
        self.inbound.is_attended() <==> self.worker.state == StageState::Running
    }

    /// A station between two runs, whose worker attends to its link.
    pub open spec fn wf(&self) -> bool {
        &&& self@.wf()
        &&& self.attends()
    }

    /// A station that waits, with nothing sent to it and nothing written.
    pub fn new(stage: Stage, timeout: usize) -> (station: Self)
        ensures
            station.wf(),
            station@ == StationView::idle(stage, timeout),
    {
        let station = Station {
            worker: StageWorker::new(stage, timeout),
            inbound: Link::new(),
            log: Vec::new(),
        };
        assert(station@ =~= StationView::idle(stage, timeout));
        station
    }

    /// Sends a message to the station.
    pub fn send(&mut self, msg: ChannelData) -> (r: Result<(), String>)
        requires
            old(self).wf(),
        ensures
            final(self).wf(),
            final(self)@ == old(self)@.sent(msg),
            verdict(r) == Link::outcome(old(self)@.takes()),
    {
        self.inbound.send(msg)
    }

    /// Starts an order at the entries of both branches, `hopper` and `milk`,
    /// and tells how that went.
    pub fn start(
        hopper: &mut Station,
        milk: &mut Station,
        timeout: usize,
        client_id: usize,
        size: Size,
    ) -> (lines: Vec<String>)
        requires
            old(hopper).wf(),
            old(milk).wf(),
        ensures
            final(hopper).wf(),
            final(milk).wf(),
            final(hopper)@ == old(hopper)@.sent((client_id, Some(size))),
            final(milk)@ == old(milk)@.sent((client_id, Some(size))),
            texts(lines@) == start_texts(
                timeout,
                client_id,
                old(hopper)@.takes(),
                old(milk)@.takes(),
            ),
    {
        start_coffee_maker(&mut hopper.inbound, &mut milk.inbound, timeout, client_id, size)
    }

    /// Whether the station's worker is done.
    pub fn is_drained(&self) -> (drained: bool)
        ensures
            drained == (self@.state == StageState::Drained),
    {
        self.worker.is_drained()
    }

    /// Lets go of the producer's end of the station's inbound link: once the
    /// station has worked off what has reached it, its worker is done.
    pub fn close(&mut self)
        requires
            old(self).wf(),
        ensures
            final(self).wf(),
            final(self)@ == old(self)@.closed(),
    {
        self.inbound.close();
    }

    /// Receives `msg` and runs the stage's job for it. The worker then either
    /// waits again, with its line to write, or is about to send.
    fn process<L: LatencySource>(&mut self, msg: ChannelData, machine: &Machine, source: &mut L)
        -> (action: Option<StageAction>)
        requires
            old(self).worker.state == StageState::Running,
        ensures
            drew(old(source).drawn(), final(source).drawn(), 1),
            final(self).worker.stage == old(self).worker.stage,
            final(self).worker.timeout == old(self).worker.timeout,
            final(self).inbound == old(self).inbound,
            final(self).log == old(self).log,
            match old(self).worker.stage.job(
                *machine,
                final(source).drawn().last(),
                old(self).worker.timeout,
                msg.1,
            ) {
                Err(cause) => {
                    &&& final(self).worker.state == StageState::Running
                    &&& reports(action, cause)
                },
                Ok(_) => if old(self).worker.stage.successor() is Some {
                    &&& final(self).worker.state == StageState::Forwarding(msg)
                    &&& action == Some(StageAction::Send(old(self).worker.stage.forwarded(msg)))
                } else {
                    &&& final(self).worker.state == StageState::Running
                    &&& reports(action, old(self).worker.stage.success_text(msg.0))
                },
            },
    {
        match self.worker.step(StageEvent::Received(msg)) {
            Some(StageAction::Execute(timeout, size)) => {
                let outcome = self.worker.stage.exec_job(machine, timeout, size, source);
                self.worker.step(StageEvent::Checked(outcome))
            },
            _ => {
                assert(false);
                None
            },
        }
    }

    /// Lets the worker work off what has reached the station, with
    /// `outbound` as the link that its sends go to, and tells whether the
    /// worker is done as of this run.
    fn work_off<L: LatencySource>(&mut self, outbound: &mut Link, machine: &Machine, source: &mut L)
        -> (released: bool)
        requires
            old(self).wf(),
        ensures
            final(self).wf(),
            drew(old(source).drawn(), final(source).drawn(), old(self)@.inbox.len()),
            final(self)@ == old(self)@.worked(
                *machine,
                since(old(source).drawn(), final(source).drawn()),
                old(outbound).takes(),
            ),
            final(outbound).is_open() == old(outbound).is_open(),
            final(outbound).is_attended() == old(outbound).is_attended(),
            final(outbound).in_flight() == old(outbound).in_flight() + passed_on(
                old(self)@.stage,
                *machine,
                old(self)@.timeout,
                old(self)@.inbox,
                since(old(source).drawn(), final(source).drawn()),
                old(outbound).takes(),
            ),
            released == (old(self)@.state == StageState::Running && !old(self)@.fed),
    {
        let ghost before = source.drawn();
        let ghost inbox = self.inbound.in_flight();
        let ghost taken = outbound.takes();
        let ghost stage = self.worker.stage;
        let ghost timeout = self.worker.timeout;
        let ghost mut done: int = 0;
        proof {
            assert(inbox.skip(0) =~= inbox);
            assert(lines_of(stage, *machine, timeout, inbox.take(0), Seq::empty(), taken)
                =~= Seq::<Seq<char>>::empty());
            assert(since(before, source.drawn()) =~= Seq::<u64>::empty());
        }
        if self.worker.is_drained() {
            assert(self@ =~= old(self)@.worked(*machine, Seq::empty(), taken));
            return false;
        }
        loop
            invariant
                0 <= done <= inbox.len(),
                before == old(source).drawn(),
                inbox == old(self).inbound.in_flight(),
                taken == old(outbound).takes(),
                old(self).worker.state == StageState::Running,
                stage == old(self).worker.stage,
                timeout == old(self).worker.timeout,
                self.worker.stage == stage,
                self.worker.timeout == timeout,
                self.worker.state == StageState::Running,
                self.inbound.is_open() == old(self).inbound.is_open(),
                self.inbound.is_attended(),
                self.inbound.in_flight() == inbox.skip(done),
                drew(before, source.drawn(), done as nat),
                texts(self.log@) == texts(old(self).log@) + lines_of(
                    stage,
                    *machine,
                    timeout,
                    inbox.take(done),
                    since(before, source.drawn()),
                    taken,
                ),
                outbound.is_open() == old(outbound).is_open(),
                outbound.is_attended() == old(outbound).is_attended(),
                outbound.in_flight() == old(outbound).in_flight() + passed_on(
                    stage,
                    *machine,
                    timeout,
                    inbox.take(done),
                    since(before, source.drawn()),
                    taken,
                ),
            decreases inbox.len() - done,
        {
            let ghost drawn = source.drawn();
            let ghost lines = texts(self.log@);
            match self.inbound.poll() {
                Delivery::Message(msg) => {
                    let written = match self.process(msg, machine, source) {
                        Some(StageAction::Send(out)) => {
                            let sent = outbound.send(out);
                            match self.worker.step(StageEvent::Sent(sent)) {
                                Some(StageAction::Report(line)) => line,
                                _ => {
                                    assert(false);
                                    String::new()
                                },
                            }
                        },
                        Some(StageAction::Report(line)) => line,
                        _ => {
                            assert(false);
                            String::new()
                        },
                    };
                    self.log.push(written);
                    proof {
                        lemma_drew_more(before, drawn, source.drawn(), done as nat, 1);
                        let latency = source.drawn().last();
                        let fresh = since(before, source.drawn());
                        let earlier = drawn.skip(before.len() as int);
                        let upto = inbox.take(done + 1);
                        assert(msg == inbox[done]);
                        assert(fresh[done] == latency);
                        assert(inbox.skip(done).drop_first() =~= inbox.skip(done + 1));
                        assert(upto.drop_last() =~= inbox.take(done));
                        assert(upto.last() == msg);
                        assert(texts(self.log@) =~= lines.push(written@));
                        assert(lines_of(stage, *machine, timeout, upto, fresh, taken) =~= lines_of(
                            stage,
                            *machine,
                            timeout,
                            inbox.take(done),
                            earlier,
                            taken,
                        ).push(handled(stage, *machine, timeout, msg, latency, taken).0));
                        lemma_passed_on_reads_its_latencies(
                            stage,
                            *machine,
                            timeout,
                            inbox.take(done),
                            earlier,
                            fresh,
                            taken,
                        );
                        done = done + 1;
                    }
                },
                Delivery::Pending => {
                    proof {
                        let fresh = since(before, source.drawn());
                        assert(inbox.take(done) =~= inbox);
                        assert(self@ =~= old(self)@.worked(*machine, fresh, taken));
                    }
                    return false;
                },
                Delivery::Closed => {
                    match self.worker.step(StageEvent::Closed) {
                        Some(StageAction::Release) => {
                            self.inbound.hang_up();
                        },
                        _ => {
                            assert(false);
                        },
                    }
                    proof {
                        let fresh = since(before, source.drawn());
                        assert(inbox.take(done) =~= inbox);
                        assert(self@ =~= old(self)@.worked(*machine, fresh, taken));
                    }
                    return true;
                },
            }
        }
    }

    /// Lets the worker work off what has reached the station, with `next` as
    /// the station that follows: each message is received, the job is run
    /// for it and, if the job succeeds and a stage follows this one, the
    /// message is sent on to `next`. When nothing is left and no more can
    /// come, the worker is done and lets go of its end of the link to `next`.
    pub fn run_relay<L: LatencySource>(
        &mut self,
        next: &mut Station,
        machine: &Machine,
        source: &mut L,
    )
        requires
            old(self).wf(),
            old(next).wf(),
        ensures
            final(self).wf(),
            final(next).wf(),
            drew(old(source).drawn(), final(source).drawn(), old(self)@.inbox.len()),
            final(self)@ == old(self)@.worked(
                *machine,
                since(old(source).drawn(), final(source).drawn()),
                old(next)@.takes(),
            ),
            final(next)@ == old(next)@.fed_by(
                old(self)@,
                *machine,
                since(old(source).drawn(), final(source).drawn()),
                old(next)@.takes(),
            ),
    {
        let released = self.work_off(&mut next.inbound, machine, source);
        if released {
            next.inbound.close();
        }
        proof {
            let fresh = source.drawn().skip(old(source).drawn().len() as int);
            if !old(next)@.takes() {
                lemma_passed_on_needs_a_taker(
                    old(self)@.stage,
                    *machine,
                    old(self)@.timeout,
                    old(self)@.inbox,
                    fresh,
                );
            }
            assert(next@ =~= old(next)@.fed_by(old(self)@, *machine, fresh, old(next)@.takes()));
        }
    }

    /// Lets the worker work off what has reached the station where no
    /// station follows: each message is received and the job is run for it.
    /// When nothing is left and no more can come, the worker is done. The
    /// worker of a stage that has a successor finds its sends undeliverable.
    pub fn run_sink<L: LatencySource>(&mut self, machine: &Machine, source: &mut L)
        requires
            old(self).wf(),
        ensures
            final(self).wf(),
            drew(old(source).drawn(), final(source).drawn(), old(self)@.inbox.len()),
            final(self)@ == old(self)@.worked(
                *machine,
                since(old(source).drawn(), final(source).drawn()),
                false,
            ),
    {
        let mut nowhere = Link::new();
        nowhere.hang_up();
        self.work_off(&mut nowhere, machine, source);
    }

    /// The lines that the station has written, oldest first.
    pub fn lines(&self) -> (lines: &Vec<String>)
        ensures
            texts(lines@) == self@.log,
    {
        &self.log
    }

    /// Where the station's worker stands.
    pub fn state(&self) -> (state: StageState)
        ensures
            state == self@.state,
    {
        self.worker.state
    }

    /// The number of messages that have reached the station and wait for its
    /// worker.
    pub fn waiting(&self) -> (n: usize)
        ensures
            n == self@.inbox.len(),
    {
        self.inbound.len()
    }
}

} // verus!
