//! The worker of one stage of the line, as a machine of four states. The
//! worker decides; whoever drives it receives, runs the subsystem's job,
//! sends and writes, and tells the worker what came of it.

use crate::latency::{drew, LatencySource};
use crate::link::ChannelData;
use crate::machine_components::{verdict, ExecJob, Machine, Size};
use crate::text::{decimal, decimal_text};
use vstd::prelude::*;

verus! {

/// The stages of the line. Coffee goes from grinding over water to the
/// press, milk from heating to frothing.
#[derive(Clone, Copy, Debug, PartialEq, Eq, Structural)]
pub enum Stage {
    GrindCoffee,
    DispenseWater,
    PressEspresso,
    HeatMilk,
    FrothMilk,
}

impl Stage {
    /// The stage that takes over from this one; none after the last stage of
    /// a branch.
    pub open spec fn successor(self) -> Option<Stage> {
        match self {
            Stage::GrindCoffee => Some(Stage::DispenseWater),
            Stage::DispenseWater => Some(Stage::PressEspresso),
            Stage::PressEspresso => None,
            Stage::HeatMilk => Some(Stage::FrothMilk),
            Stage::FrothMilk => None,
        }
    }

    /// Whether the stage's subsystem holds material, and so reads the size of
    /// the cup.
    pub open spec fn holds_stock(self) -> bool {
        self == Stage::GrindCoffee || self == Stage::DispenseWater || self == Stage::HeatMilk
    }

    /// What the stage has done to a cup when it succeeds.
    pub open spec fn deed(self) -> Seq<char> {
        match self {
            Stage::GrindCoffee => "Coffee Ground"@,
            Stage::DispenseWater => "Water Dispensed"@,
            Stage::PressEspresso => "Espresso Pressed"@,
            Stage::HeatMilk => "Milk heated"@,
            Stage::FrothMilk => "Milk frothed"@,
        }
    }

    /// The line that tells of the stage's success for a client.
    pub open spec fn success_text(self, client: usize) -> Seq<char> {
        self.deed() + " for Client "@ + decimal_text(client as nat) + "!"@
    }

    /// The message that the stage hands on: the size goes along only to a
    /// stage that reads it.
    pub open spec fn forwarded(self, msg: ChannelData) -> ChannelData {
        match self.successor() {
            Some(to) if to.holds_stock() => msg,
            _ => (msg.0, None),
        }
    }

    /// The outcome of the stage's job on `machine` for a probe that met
    /// `latency`.
    pub open spec fn job(self, machine: Machine, latency: u64, timeout: usize, size: Option<Size>)
        -> Result<(), Seq<char>> {
        match self {
            Stage::GrindCoffee => machine.hopper.job(latency, timeout, size),
            Stage::DispenseWater => machine.water.job(latency, timeout, size),
            Stage::PressEspresso => machine.press.job(latency, timeout, size),
            Stage::HeatMilk => machine.milk.job(latency, timeout, size),
            Stage::FrothMilk => machine.frother.job(latency, timeout, size),
        }
    }

    /// The stage that takes over from this one.
    pub fn next(self) -> (to: Option<Stage>)
        ensures
            to == self.successor(),
    {
        match self {
            Stage::GrindCoffee => Some(Stage::DispenseWater),
            Stage::DispenseWater => Some(Stage::PressEspresso),
            Stage::PressEspresso => None,
            Stage::HeatMilk => Some(Stage::FrothMilk),
            Stage::FrothMilk => None,
        }
    }

    /// Whether the stage's subsystem holds material.
    pub fn checks_stock(self) -> (holds: bool)
        ensures
            holds == self.holds_stock(),
    {
        match self {
            Stage::GrindCoffee => true,
            Stage::DispenseWater => true,
            Stage::PressEspresso => false,
            Stage::HeatMilk => true,
            Stage::FrothMilk => false,
        }
    }

    /// Writes the line that tells of the stage's success for `client`.
    pub fn success_line(self, client: usize) -> (line: String)
        ensures
            line@ == self.success_text(client),
    {
        let mut line = String::from_str(
            match self {
                Stage::GrindCoffee => "Coffee Ground",
                Stage::DispenseWater => "Water Dispensed",
                Stage::PressEspresso => "Espresso Pressed",
                Stage::HeatMilk => "Milk heated",
                Stage::FrothMilk => "Milk frothed",
            },
        );
        line.append(" for Client ");
        let number = decimal(client);
        line.append(number.as_str());
        line.append("!");
        line
    }

    /// The message that the stage hands on for `msg`.
    pub fn forward(self, msg: ChannelData) -> (out: ChannelData)
        ensures
            out == self.forwarded(msg),
    {
        match self.next() {
            Some(to) => if to.checks_stock() {
                msg
            } else {
                (msg.0, None)
            },
            None => (msg.0, None),
        }
    }

    /// Runs the stage's job on `machine`: the probe of its subsystem and,
    /// where that holds material and a size is given, the stock check.
    pub fn exec_job<L: LatencySource>(
        self,
        machine: &Machine,
        timeout: usize,
        size: Option<Size>,
        source: &mut L,
    ) -> (r: Result<(), String>)
        ensures
            drew(old(source).drawn(), final(source).drawn(), 1),
            verdict(r) == self.job(
                *machine,
                final(source).drawn().last(),
                timeout,
                size,
            ),
    {
        match self {
            Stage::GrindCoffee => machine.hopper.exec_job(timeout, size, source),
            Stage::DispenseWater => machine.water.exec_job(timeout, size, source),
            Stage::PressEspresso => machine.press.exec_job(timeout, size, source),
            Stage::HeatMilk => machine.milk.exec_job(timeout, size, source),
            Stage::FrothMilk => machine.frother.exec_job(timeout, size, source),
        }
    }
}

/// Where a worker stands.
#[derive(Clone, Copy, Debug, PartialEq, Eq)]
pub enum StageState {
    /// Waiting on the inbound link.
    Running,
    /// Running the subsystem's job for the message received.
    Processing(ChannelData),
    /// Sending to the next stage for the message received.
    Forwarding(ChannelData),
    /// Done for good: the inbound link was closed and empty.
    Drained,
}

/// What the driver tells a worker.
#[derive(Debug, PartialEq, Eq)]
pub enum StageEvent {
    /// The inbound link delivered a message.
    Received(ChannelData),
    /// The inbound link is closed and empty.
    Closed,
    /// The subsystem's job came back.
    Checked(Result<(), String>),
    /// The send to the next stage came back.
    Sent(Result<(), String>),
}

/// What a worker asks of its driver.
#[derive(Debug, PartialEq, Eq)]
pub enum StageAction {
    /// Run the subsystem's job with this timeout and size, and tell the
    /// outcome with [`StageEvent::Checked`].
    Execute(usize, Option<Size>),
    /// Send this message to the next stage, and tell the outcome with
    /// [`StageEvent::Sent`].
    Send(ChannelData),
    /// Write this line, then wait on the inbound link.
    Report(String),
    /// Release the handle of the completion barrier, let go of both links,
    /// and stop.
    Release,
}

/// Whether `action` asks to write exactly `line`.
pub open spec fn reports(action: Option<StageAction>, line: Seq<char>) -> bool {
    match action {
        Some(StageAction::Report(written)) => written@ == line,
        _ => false,
    }
}

/// The worker of one stage.
pub struct StageWorker {
    /// The stage that the worker serves.
    pub stage: Stage,
    /// The timeout of the probes that its jobs make.
    pub timeout: usize,
    /// Where the worker stands.
    pub state: StageState,
}

impl StageWorker {
    /// A worker that waits on its inbound link.
    pub fn new(stage: Stage, timeout: usize) -> (worker: Self)
        ensures
            worker.stage == stage,
            worker.timeout == timeout,
            worker.state == StageState::Running,
    {
        StageWorker { stage, timeout, state: StageState::Running }
    }

    /// Whether a worker that was `self` and is told `event` stands at `after`
    /// and asks `action`.
    ///
    /// A message received is processed. A job that fails drops the cup: its
    /// cause is written and nothing is sent on. A job that succeeds is
    /// followed by the send, where a stage follows, and by the line of
    /// success. A send that fails has its cause written in place of that
    /// line. Closure drains the worker. An event that does not fit the state
    /// changes nothing and asks nothing.
    pub open spec fn steps(self, event: StageEvent, after: StageState, action: Option<StageAction>)
        -> bool {
        match (self.state, event) {
            (StageState::Running, StageEvent::Received(msg)) => {
                &&& after == StageState::Processing(msg)
                &&& action == Some(StageAction::Execute(self.timeout, msg.1))
            },
            (StageState::Running, StageEvent::Closed) => {
                &&& after == StageState::Drained
                &&& action == Some(StageAction::Release)
            },
            (StageState::Processing(msg), StageEvent::Checked(Ok(_))) => {
                if self.stage.successor() is Some {
                    &&& after == StageState::Forwarding(msg)
                    &&& action == Some(StageAction::Send(self.stage.forwarded(msg)))
                } else {
                    &&& after == StageState::Running
                    &&& reports(action, self.stage.success_text(msg.0))
                }
            },
            (StageState::Processing(_), StageEvent::Checked(Err(cause))) => {
                &&& after == StageState::Running
                &&& reports(action, cause@)
            },
            (StageState::Forwarding(msg), StageEvent::Sent(Ok(_))) => {
                &&& after == StageState::Running
                &&& reports(action, self.stage.success_text(msg.0))
            },
            (StageState::Forwarding(_), StageEvent::Sent(Err(cause))) => {
                &&& after == StageState::Running
                &&& reports(action, cause@)
            },
            _ => {
                &&& after == self.state
                &&& action is None
            },
        }
    }

    /// A worker that is done stays done whatever it is told, and asks
    /// nothing more of its driver.
    pub proof fn lemma_drained_is_final(
        self,
        event: StageEvent,
        after: StageState,
        action: Option<StageAction>,
    )
        requires
            self.state == StageState::Drained,
            self.steps(event, after, action),
        ensures
            after == StageState::Drained,
            action is None,
    {
    }

    /// A worker asks for the release of its barrier handle in the step in
    /// which it is done, and in no other: that is the step in which a waiting
    /// worker is told of the closure of its inbound link.
    pub proof fn lemma_release_comes_with_closure(
        self,
        event: StageEvent,
        after: StageState,
        action: Option<StageAction>,
    )
        requires
            self.steps(event, after, action),
        ensures
            action == Some(StageAction::Release) <==> self.state == StageState::Running && event
                == StageEvent::Closed,
            action == Some(StageAction::Release) <==> self.state != StageState::Drained && after
                == StageState::Drained,
    {
    }

    /// Takes one step: moves to the next state and says what to do next.
    pub fn step(&mut self, event: StageEvent) -> (action: Option<StageAction>)
        ensures
            final(self).stage == old(self).stage,
            final(self).timeout == old(self).timeout,
            old(self).steps(event, final(self).state, action),
    {
        match event {
            StageEvent::Received(msg) => match self.state {
                StageState::Running => {
                    self.state = StageState::Processing(msg);
                    Some(StageAction::Execute(self.timeout, msg.1))
                },
                _ => None,
            },
            StageEvent::Closed => match self.state {
                StageState::Running => {
                    self.state = StageState::Drained;
                    Some(StageAction::Release)
                },
                _ => None,
            },
            StageEvent::Checked(outcome) => match self.state {
                StageState::Processing(msg) => match outcome {
                    Ok(_) => match self.stage.next() {
                        Some(_) => {
                            self.state = StageState::Forwarding(msg);
                            Some(StageAction::Send(self.stage.forward(msg)))
                        },
                        None => {
                            self.state = StageState::Running;
                            Some(StageAction::Report(self.stage.success_line(msg.0)))
                        },
                    },
                    Err(cause) => {
                        self.state = StageState::Running;
                        Some(StageAction::Report(cause))
                    },
                },
                _ => None,
            },
            StageEvent::Sent(outcome) => match self.state {
                StageState::Forwarding(msg) => {
                    self.state = StageState::Running;
                    match outcome {
                        Ok(_) => Some(StageAction::Report(self.stage.success_line(msg.0))),
                        Err(cause) => Some(StageAction::Report(cause)),
                    }
                },
                _ => None,
            },
        }
    }

    /// Whether the worker is done for good.
    pub fn is_drained(&self) -> (drained: bool)
        ensures
            drained == (self.state == StageState::Drained),
    {
        match self.state {
            StageState::Drained => true,
            _ => false,
        }
    }
}

} // verus!
