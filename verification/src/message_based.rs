//! Orders on their way into the line: the cup, the admission of an order by
//! the checks on all five subsystems, and the start of an admitted order on
//! both branches.

use crate::latency::{
    drawable, drew, lemma_drew_more, since, LatencySource, MAX_LATENCY, MIN_LATENCY,
};
use crate::link::{ChannelData, Link};
use crate::machine_components::{
    and_then, probe, stock, verdict, Capacity, CoffeeHopper, EspressoPress, Frother, Ingredient,
    Machine, MilkTank, Ping, Size, WaterTank,
};
use crate::pipeline::{LineView, Pipeline};
use crate::stage::Stage;
use crate::station::stocked_throughout;
use crate::text::{decimal, decimal_text, texts};
use vstd::prelude::*;

verus! {

/// The timeout of the probes, in milliseconds, that the line runs with.
pub const TIMEOUT: usize = 101;

/// The timeout under which the start of an order warns.
pub const START_TIMEOUT: usize = 50;

/// A cup on order.
pub struct Cup {
    /// The size, by which the stock is checked.
    pub size: Size,
    /// What is in the cup so far.
    pub contents: Vec<Ingredient>,
    /// The name of the client.
    pub client: String,
}

impl Cup {
    /// An empty cup of size `s` for client `c`.
    pub fn new(s: Size, c: String) -> (cup: Self)
        ensures
            cup.size == s,
            cup.contents@ == Seq::<Ingredient>::empty(),
            cup.client == c,
    {
        Cup { size: s, contents: Vec::<Ingredient>::new(), client: c }
    }

    /// Adds an ingredient to the cup.
    pub fn add_ingredient(&mut self, i: Ingredient)
        ensures
            final(self).contents@ == old(self).contents@.push(i),
            final(self).size == old(self).size,
            final(self).client == old(self).client,
    {
        self.contents.push(i);
    }

    /// The contents as written on the cup: each ingredient's name between
    /// two blanks.
    pub open spec fn contents_text(contents: Seq<Ingredient>) -> Seq<char>
        decreases contents.len(),
    {
        if contents.len() == 0 {
            Seq::empty()
        } else {
            Self::contents_text(contents.drop_last()) + " "@ + contents.last().text() + " "@
        }
    }

    /// What is written on the cup.
    pub open spec fn text(&self) -> Seq<char> {
        "Size: "@ + self.size.text() + ", Contents: "@ + Self::contents_text(self.contents@)
    }

    /// Writes out size and contents.
    pub fn to_string(&self) -> (written: String)
        ensures
            written@ == self.text(),
    {
        let mut contents = String::new();
        let mut i: usize = 0;
        while i < self.contents.len()
            invariant
                i <= self.contents.len(),
                contents@ == Self::contents_text(self.contents@.take(i as int)),
            decreases self.contents.len() - i,
        {
            proof {
                assert(self.contents@.take(i + 1).drop_last() == self.contents@.take(i as int));
            }
            contents.append(" ");
            let name = self.contents[i].to_string();
            contents.append(name.as_str());
            contents.append(" ");
            i += 1;
        }
        proof {
            assert(self.contents@.take(i as int) == self.contents@);
        }
        let mut written = String::from_str("Size: ");
        let volume = self.size.to_string();
        written.append(volume.as_str());
        written.append(", Contents: ");
        written.append(contents.as_str());
        written
    }
}

impl core::ops::Add<Ingredient> for Cup {
    type Output = Cup;

    /// The cup with one more ingredient in it.
    fn add(self, i: Ingredient) -> (cup: Cup)
        ensures
            cup.contents@ == self.contents@.push(i),
            cup.size == self.size,
            cup.client == self.client,
    {
        let mut c = self.contents;
        c.push(i);
        Cup { size: self.size, contents: c, client: self.client }
    }
}

/// What `+` gives is told by the contract of `add` alone: a cup holds a
/// vector, so no function of the contracts can put one together.
impl vstd::std_specs::ops::AddSpecImpl<Ingredient> for Cup {
    open spec fn obeys_add_spec() -> bool {
        false
    }

    open spec fn add_req(self, i: Ingredient) -> bool {
        true
    }

    open spec fn add_spec(self, i: Ingredient) -> Cup {
        self
    }
}

/// The outcomes of five checks with their causes as sequences of characters.
pub open spec fn verdicts(checks: Seq<Result<(), String>>) -> Seq<Result<(), Seq<char>>> {
    checks.map_values(|r: Result<(), String>| verdict(r))
}

/// The outcome of the check on a subsystem that holds material, for a probe
/// that met `latency`: the probe, then the stock for a cup of size `s`.
pub open spec fn machine_check<M: Ping + Capacity>(m: &M, latency: u64, t_o: usize, s: Size)
    -> Result<(), Seq<char>> {
    and_then(probe(M::silence(), latency, t_o), stock(M::shortage(), M::needed(s), m.remaining()))
}

/// The outcomes of the checks on the five subsystems, in the order hopper,
/// water tank, press, milk tank, frother, for probes that met `latencies` in
/// that order. Each outcome depends on its own subsystem alone.
pub open spec fn admission(machine: Machine, t_o: usize, s: Size, latencies: Seq<u64>) -> Seq<
    Result<(), Seq<char>>,
> {
    seq![
        machine_check(&machine.hopper, latencies[0], t_o, s),
        machine_check(&machine.water, latencies[1], t_o, s),
        probe(EspressoPress::silence(), latencies[2], t_o),
        machine_check(&machine.milk, latencies[3], t_o, s),
        probe(Frother::silence(), latencies[4], t_o),
    ]
}

/// Whether every check has passed.
pub open spec fn all_passed(outcomes: Seq<Result<(), Seq<char>>>) -> bool {
    forall|i: int| 0 <= i < outcomes.len() ==> (#[trigger] outcomes[i]) is Ok
}

/// The causes of the checks that failed, in the order of the checks.
pub open spec fn causes(outcomes: Seq<Result<(), Seq<char>>>) -> Seq<Seq<char>>
    decreases outcomes.len(),
{
    if outcomes.len() == 0 {
        Seq::empty()
    } else {
        match outcomes.last() {
            Ok(_) => causes(outcomes.drop_last()),
            Err(cause) => causes(outcomes.drop_last()).push(cause),
        }
    }
}

/// Checks a subsystem that holds material: probes it and, if it answers in
/// time, checks that it holds enough for a cup of size `s`.
pub fn check_machine<M: Ping + Capacity, L: LatencySource>(
    t_o: usize,
    s: Size,
    m: &M,
    source: &mut L,
) -> (r: Result<(), String>)
    ensures
        drew(old(source).drawn(), final(source).drawn(), 1),
        verdict(r) == machine_check(m, final(source).drawn().last(), t_o, s),
{
    if let Err(e) = M::ping(t_o, source) {
        Err(e)
    } else {
        if let Err(e) = m.check_capacity(s) {
            Err(e)
        } else {
            Ok(())
        }
    }
}

/// Checks all five subsystems for a cup of size `s`. No failure stops the
/// checks that follow it: there are always five outcomes, in the order
/// hopper, water tank, press, milk tank, frother.
pub fn run_checks<L: LatencySource>(
    t_o: usize,
    s: Size,
    machine: &Machine,
    source: &mut L,
) -> (checks: [Result<(), String>; 5])
    ensures
        drew(old(source).drawn(), final(source).drawn(), 5),
        verdicts(checks@) == admission(
            *machine,
            t_o,
            s,
            since(old(source).drawn(), final(source).drawn()),
        ),
        t_o >= MAX_LATENCY ==> (all_passed(verdicts(checks@)) <==> machine.stocked_for(s)),
        !machine.stocked_for(s) || t_o < MIN_LATENCY ==> !all_passed(verdicts(checks@)),
{
    let ghost before = source.drawn();
    let hopper = check_machine(t_o, s, &machine.hopper, source);
    let water = check_machine(t_o, s, &machine.water, source);
    let press = EspressoPress::ping(t_o, source);
    let milk = check_machine(t_o, s, &machine.milk, source);
    let frother = Frother::ping(t_o, source);
    let checks = [hopper, water, press, milk, frother];
    proof {
        let fresh = since(before, source.drawn());
        let outcomes = admission(*machine, t_o, s, fresh);
        assert(verdicts(checks@) =~= outcomes);
        assert(drawable(fresh[0]) && drawable(fresh[1]) && drawable(fresh[2]) && drawable(
            fresh[3],
        ) && drawable(fresh[4]));
        if !machine.stocked_for(s) || t_o < MIN_LATENCY {
            assert(outcomes[0] is Err || outcomes[1] is Err || outcomes[3] is Err);
        }
    }
    checks
}

/// Whether all five checks have passed: the order is admitted then, and only
/// then.
pub fn admitted(checks: &[Result<(), String>; 5]) -> (passed: bool)
    ensures
        passed == all_passed(verdicts(checks@)),
{
    let mut i: usize = 0;
    while i < 5
        invariant
            i <= 5,
            forall|j: int| 0 <= j < i ==> (#[trigger] verdicts(checks@)[j]) is Ok,
        decreases 5 - i,
    {
        if checks[i].is_err() {
            assert(verdicts(checks@)[i as int] is Err);
            return false;
        }
        i += 1;
    }
    true
}

/// The causes of the checks that failed, in the order of the checks.
pub fn failures(checks: &[Result<(), String>; 5]) -> (lines: Vec<String>)
    ensures
        texts(lines@) == causes(verdicts(checks@)),
{
    let mut lines: Vec<String> = Vec::new();
    let mut i: usize = 0;
    while i < 5
        invariant
            i <= 5,
            texts(lines@) == causes(verdicts(checks@).take(i as int)),
        decreases 5 - i,
    {
        proof {
            let upto = verdicts(checks@).take(i + 1);
            assert(upto.drop_last() == verdicts(checks@).take(i as int));
            assert(upto.last() == verdict(checks@[i as int]));
        }
        match &checks[i] {
            Err(cause) => {
                let ghost before = lines@;
                lines.push(cause.clone());
                assert(texts(lines@) == texts(before).push(cause@));
            },
            Ok(_) => {},
        }
        i += 1;
    }
    proof {
        assert(verdicts(checks@).take(5) == verdicts(checks@));
    }
    lines
}

/// The line that turns an order down.
pub open spec fn rejection_text(client: Seq<char>) -> Seq<char> {
    "Cannot make "@ + client + "'s Coffee!"@
}

/// The line that warns of a timeout too short to start on.
pub open spec fn warning_text(client_id: usize) -> Seq<char> {
    "Client "@ + decimal_text(client_id as nat) + " Start Coffee Timeout!"@
}

/// The line on the start of the coffee branch, by the outcome of the send.
pub open spec fn beans_text(client_id: usize, sent: Result<(), Seq<char>>) -> Seq<char> {
    match sent {
        Ok(_) => "Client "@ + decimal_text(client_id as nat) + " Coffee Beans Started!"@,
        Err(cause) => "Error Starting Client "@ + decimal_text(client_id as nat)
            + " Coffee Beans!\n"@ + cause,
    }
}

/// The line on the start of the milk branch, by the outcome of the send.
pub open spec fn milk_text(client_id: usize, sent: Result<(), Seq<char>>) -> Seq<char> {
    match sent {
        Ok(_) => "Client "@ + decimal_text(client_id as nat) + " Milk Started!"@,
        Err(cause) => "Error starting Client "@ + decimal_text(client_id as nat) + " Milk!\n"@
            + cause,
    }
}

/// The lines on the start of an order, by whether each entry link took it.
pub open spec fn start_texts(timeout: usize, client_id: usize, beans: bool, milk: bool) -> Seq<
    Seq<char>,
> {
    let lines = seq![
        beans_text(client_id, Link::outcome(beans)),
        milk_text(client_id, Link::outcome(milk)),
    ];
    if timeout < START_TIMEOUT {
        seq![warning_text(client_id)] + lines
    } else {
        lines
    }
}

/// Writes the line that turns the order of `client` down.
pub fn rejection_line(client: &str) -> (line: String)
    ensures
        line@ == rejection_text(client@),
{
    let mut line = String::from_str("Cannot make ");
    line.append(client);
    line.append("'s Coffee!");
    line
}

/// Writes the warning for a timeout under [`START_TIMEOUT`]; nothing for a
/// longer one.
pub fn start_warning(timeout: usize, client_id: usize) -> (line: Option<String>)
    ensures
        line is Some <==> timeout < START_TIMEOUT,
        line matches Some(warning) ==> warning@ == warning_text(client_id),
{
    if timeout < START_TIMEOUT {
        let mut line = String::from_str("Client ");
        let number = decimal(client_id);
        line.append(number.as_str());
        line.append(" Start Coffee Timeout!");
        Some(line)
    } else {
        None
    }
}

/// Writes the line on the start of the coffee branch.
pub fn beans_line(client_id: usize, sent: &Result<(), String>) -> (line: String)
    ensures
        line@ == beans_text(client_id, verdict(*sent)),
{
    let number = decimal(client_id);
    match sent {
        Ok(_) => {
            let mut line = String::from_str("Client ");
            line.append(number.as_str());
            line.append(" Coffee Beans Started!");
            line
        },
        Err(cause) => {
            let mut line = String::from_str("Error Starting Client ");
            line.append(number.as_str());
            line.append(" Coffee Beans!\n");
            line.append(cause.as_str());
            line
        },
    }
}

/// Writes the line on the start of the milk branch.
pub fn milk_line(client_id: usize, sent: &Result<(), String>) -> (line: String)
    ensures
        line@ == milk_text(client_id, verdict(*sent)),
{
    let number = decimal(client_id);
    match sent {
        Ok(_) => {
            let mut line = String::from_str("Client ");
            line.append(number.as_str());
            line.append(" Milk Started!");
            line
        },
        Err(cause) => {
            let mut line = String::from_str("Error starting Client ");
            line.append(number.as_str());
            line.append(" Milk!\n");
            line.append(cause.as_str());
            line
        },
    }
}

/// Starts an admitted order: sends it, with its size, into the entry of the
/// coffee branch and into the entry of the milk branch. A send that fails is
/// told in its line and does not keep the other from being made.
pub fn start_coffee_maker(
    hopper_send: &mut Link,
    milk_send: &mut Link,
    timeout: usize,
    client_id: usize,
    size: Size,
) -> (lines: Vec<String>)
    ensures
        old(hopper_send).sent((client_id, Some(size)), final(hopper_send)),
        old(milk_send).sent((client_id, Some(size)), final(milk_send)),
        texts(lines@) == start_texts(
            timeout,
            client_id,
            old(hopper_send).takes(),
            old(milk_send).takes(),
        ),
{
    let mut lines: Vec<String> = Vec::new();
    if let Some(warning) = start_warning(timeout, client_id) {
        lines.push(warning);
    }
    let beans = hopper_send.send((client_id, Some(size)));
    lines.push(beans_line(client_id, &beans));
    let milk = milk_send.send((client_id, Some(size)));
    lines.push(milk_line(client_id, &milk));
    assert(texts(lines@) =~= start_texts(
        timeout,
        client_id,
        old(hopper_send).takes(),
        old(milk_send).takes(),
    ));
    lines
}

/// The latencies that the probes for the order at place `i` of a batch meet,
/// where the probes for the whole batch meet `latencies`: five for each
/// order.
pub open spec fn order_latencies(latencies: Seq<u64>, i: int) -> Seq<u64> {
    latencies.subrange(5 * i, 5 * i + 5)
}

/// Whether the order at place `i` of the batch is admitted.
pub open spec fn order_admitted(
    machine: Machine,
    timeout: usize,
    cups: Seq<Cup>,
    latencies: Seq<u64>,
    i: int,
) -> bool {
    all_passed(admission(machine, timeout, cups[i].size, order_latencies(latencies, i)))
}

/// The lines written to the console for the order at place `i` of the batch:
/// the cause of each check that failed and then, for an order admitted, the
/// lines on its start, for another the line that turns it down.
pub open spec fn order_texts(
    machine: Machine,
    timeout: usize,
    cups: Seq<Cup>,
    latencies: Seq<u64>,
    i: int,
) -> Seq<Seq<char>> {
    let outcomes = admission(machine, timeout, cups[i].size, order_latencies(latencies, i));
    causes(outcomes) + if all_passed(outcomes) {
        start_texts(timeout, i as usize, true, true)
    } else {
        seq![rejection_text(cups[i].client@)]
    }
}

/// The lines written to the console for the first `n` orders of the batch.
pub open spec fn console_texts(
    machine: Machine,
    timeout: usize,
    cups: Seq<Cup>,
    latencies: Seq<u64>,
    n: nat,
) -> Seq<Seq<char>>
    decreases n,
{
    if n == 0 {
        Seq::empty()
    } else {
        console_texts(machine, timeout, cups, latencies, (n - 1) as nat) + order_texts(
            machine,
            timeout,
            cups,
            latencies,
            n - 1,
        )
    }
}

/// The orders among the first `n` of the batch that are admitted, as they
/// enter the line: each with its place in the batch as the client's number,
/// and with its size.
pub open spec fn entered(
    machine: Machine,
    timeout: usize,
    cups: Seq<Cup>,
    latencies: Seq<u64>,
    n: nat,
) -> Seq<ChannelData>
    decreases n,
{
    if n == 0 {
        Seq::empty()
    } else {
        let before = entered(machine, timeout, cups, latencies, (n - 1) as nat);
        if order_admitted(machine, timeout, cups, latencies, n - 1) {
            before.push(((n - 1) as usize, Some(cups[n - 1].size)))
        } else {
            before
        }
    }
}

/// The line after the first `n` orders of the batch were put to the checks: the
/// orders admitted wait at both entries, and no other.
pub open spec fn queued(
    machine: Machine,
    timeout: usize,
    cups: Seq<Cup>,
    latencies: Seq<u64>,
    n: nat,
) -> LineView {
    LineView::loaded(machine, timeout, entered(machine, timeout, cups, latencies, n))
}

/// What becomes of the first `n` orders at the checks depends on no latency but
/// those of their own probes.
pub proof fn lemma_orders_read_their_latencies(
    machine: Machine,
    timeout: usize,
    cups: Seq<Cup>,
    a: Seq<u64>,
    b: Seq<u64>,
    n: nat,
)
    requires
        5 * n <= a.len(),
        5 * n <= b.len(),
        forall|i: int| 0 <= i < 5 * n ==> a[i] == b[i],
    ensures
        console_texts(machine, timeout, cups, a, n) == console_texts(machine, timeout, cups, b, n),
        entered(machine, timeout, cups, a, n) == entered(machine, timeout, cups, b, n),
    decreases n,
{
    if n > 0 {
        lemma_orders_read_their_latencies(machine, timeout, cups, a, b, (n - 1) as nat);
        assert(order_latencies(a, n - 1) =~= order_latencies(b, n - 1));
    }
}

/// The causes of checks that have all passed are none.
pub proof fn lemma_no_causes(outcomes: Seq<Result<(), Seq<char>>>)
    requires
        all_passed(outcomes),
    ensures
        causes(outcomes) == Seq::<Seq<char>>::empty(),
    decreases outcomes.len(),
{
    if outcomes.len() > 0 {
        assert(outcomes.last() is Ok);
        assert forall|i: int| 0 <= i < outcomes.drop_last().len() implies (
        #[trigger] outcomes.drop_last()[i]) is Ok by {
            assert(outcomes[i] is Ok);
        }
        lemma_no_causes(outcomes.drop_last());
    }
}

/// The cause of a check that failed is among the causes.
pub proof fn lemma_cause_is_told(outcomes: Seq<Result<(), Seq<char>>>, k: int)
    requires
        0 <= k < outcomes.len(),
        outcomes[k] is Err,
    ensures
        causes(outcomes).contains(outcomes[k]->Err_0),
    decreases outcomes.len(),
{
    let before = causes(outcomes.drop_last());
    if k == outcomes.len() - 1 {
        assert(causes(outcomes) == before.push(outcomes[k]->Err_0));
        assert(causes(outcomes)[before.len() as int] == outcomes[k]->Err_0);
    } else {
        lemma_cause_is_told(outcomes.drop_last(), k);
        let at = choose|i: int| 0 <= i < before.len() && before[i] == outcomes[k]->Err_0;
        assert(causes(outcomes)[at] == outcomes[k]->Err_0);
    }
}

/// A machine that answers every probe in time and holds enough for every
/// cup serves the whole batch: every order is admitted and started on both
/// branches, every worker is done after the run, and every stage has written
/// the line of its success for every client in turn.
pub proof fn lemma_ready_machine_serves_all(
    machine: Machine,
    timeout: usize,
    cups: Seq<Cup>,
    latencies: Seq<u64>,
)
    requires
        cups.len() <= usize::MAX,
        timeout >= MAX_LATENCY,
        5 * cups.len() <= latencies.len(),
        10 * cups.len() <= latencies.len() || 5 * cups.len() + queued(
            machine,
            timeout,
            cups,
            latencies,
            cups.len(),
        ).closed().probes(latencies.skip(5 * cups.len() as int)) <= latencies.len(),
        forall|i: int|
            0 <= i < latencies.len() && i < 10 * cups.len() ==> drawable(#[trigger] latencies[i]),
        forall|i: int| 0 <= i < cups.len() ==> machine.stocked_for((#[trigger] cups[i]).size),
    ensures
        forall|i: int|
            0 <= i < cups.len() ==> #[trigger] order_admitted(machine, timeout, cups, latencies, i),
        forall|i: int|
            0 <= i < cups.len() ==> #[trigger] order_texts(machine, timeout, cups, latencies, i)
                == start_texts(timeout, i as usize, true, true),
        queued(machine, timeout, cups, latencies, cups.len()).closed().ran(
            latencies.skip(5 * cups.len() as int),
        ).is_released(),
        forall|stage: Stage|
            (#[trigger] queued(machine, timeout, cups, latencies, cups.len()).closed().ran(
                latencies.skip(5 * cups.len() as int),
            ).station(stage)).log == Seq::new(
                cups.len(),
                |i: int| stage.success_text(i as usize),
            ),
{
    let n = cups.len();
    let all = Seq::new(n, |i: int| (i as usize, Some(cups[i].size)));
    assert forall|i: int| 0 <= i < n implies #[trigger] order_admitted(
        machine,
        timeout,
        cups,
        latencies,
        i,
    ) && order_texts(machine, timeout, cups, latencies, i) == start_texts(
        timeout,
        i as usize,
        true,
        true,
    ) by {
        let met = order_latencies(latencies, i);
        assert forall|k: int| 0 <= k < 5 implies drawable(#[trigger] met[k]) by {
            assert(met[k] == latencies[5 * i + k]);
        }
        assert(machine.stocked_for(cups[i].size));
        let outcomes = admission(machine, timeout, cups[i].size, met);
        assert(drawable(met[0]) && drawable(met[1]) && drawable(met[2]) && drawable(met[3])
            && drawable(met[4]));
        assert(all_passed(outcomes));
        lemma_no_causes(outcomes);
        assert(order_texts(machine, timeout, cups, latencies, i) =~= start_texts(
            timeout,
            i as usize,
            true,
            true,
        ));
    }
    lemma_all_enter(machine, timeout, cups, latencies, n);
    let run = latencies.skip(5 * n as int);
    assert forall|i: int| 0 <= i < run.len() && i < 5 * n implies drawable(#[trigger] run[i]) by {
        assert(run[i] == latencies[5 * n + i]);
    }
    assert forall|i: int| 0 <= i < n implies stocked_throughout(machine, #[trigger] all[i]) by {
        assert(machine.stocked_for(cups[i].size));
    }
    LineView::lemma_ready_line_serves_all(machine, timeout, all, run);
    let after = queued(machine, timeout, cups, latencies, n).closed().ran(run);
    assert forall|stage: Stage| (#[trigger] after.station(stage)).log == Seq::new(
        n,
        |i: int| stage.success_text(i as usize),
    ) by {
        assert(Seq::new(all.len(), |i: int| stage.success_text(all[i].0)) =~= Seq::new(
            n,
            |i: int| stage.success_text(i as usize),
        ));
    }
}

/// Where every one of the first `n` orders is admitted, every one enters.
proof fn lemma_all_enter(
    machine: Machine,
    timeout: usize,
    cups: Seq<Cup>,
    latencies: Seq<u64>,
    n: nat,
)
    requires
        n <= cups.len(),
        forall|i: int|
            0 <= i < n ==> #[trigger] order_admitted(machine, timeout, cups, latencies, i),
    ensures
        entered(machine, timeout, cups, latencies, n) == Seq::new(
            n,
            |i: int| (i as usize, Some(cups[i].size)),
        ),
    decreases n,
{
    if n > 0 {
        lemma_all_enter(machine, timeout, cups, latencies, (n - 1) as nat);
        assert(order_admitted(machine, timeout, cups, latencies, n - 1));
    }
    assert(entered(machine, timeout, cups, latencies, n) =~= Seq::new(
        n,
        |i: int| (i as usize, Some(cups[i].size)),
    ));
}

/// An order for which hopper or tanks hold too little is turned down,
/// whatever its probes meet: the last line for it says so, and nothing is
/// sent into the line. Where the subsystem that holds too little answers its
/// probe in time, the cause of its shortage is among the lines.
pub proof fn lemma_short_stock_turns_down(
    machine: Machine,
    timeout: usize,
    cups: Seq<Cup>,
    latencies: Seq<u64>,
    i: int,
)
    requires
        0 <= i < cups.len(),
        5 * i + 5 <= latencies.len(),
        !machine.stocked_for(cups[i].size),
    ensures
        !order_admitted(machine, timeout, cups, latencies, i),
        order_texts(machine, timeout, cups, latencies, i).last() == rejection_text(
            cups[i].client@,
        ),
        entered(machine, timeout, cups, latencies, (i + 1) as nat) == entered(
            machine,
            timeout,
            cups,
            latencies,
            i as nat,
        ),
        CoffeeHopper::needed(cups[i].size) > machine.hopper.remaining() && latencies[5 * i]
            <= timeout ==> order_texts(machine, timeout, cups, latencies, i).contains(
            CoffeeHopper::shortage(),
        ),
        WaterTank::needed(cups[i].size) > machine.water.remaining() && latencies[5 * i + 1]
            <= timeout ==> order_texts(machine, timeout, cups, latencies, i).contains(
            WaterTank::shortage(),
        ),
        MilkTank::needed(cups[i].size) > machine.milk.remaining() && latencies[5 * i + 3]
            <= timeout ==> order_texts(machine, timeout, cups, latencies, i).contains(
            MilkTank::shortage(),
        ),
{
    let met = order_latencies(latencies, i);
    let size = cups[i].size;
    let outcomes = admission(machine, timeout, size, met);
    let told = causes(outcomes);
    let lines = order_texts(machine, timeout, cups, latencies, i);
    assert(outcomes[0] is Err || outcomes[1] is Err || outcomes[3] is Err);
    assert(lines == told + seq![rejection_text(cups[i].client@)]);
    assert(lines.last() == rejection_text(cups[i].client@));
    assert(met[0] == latencies[5 * i] && met[1] == latencies[5 * i + 1] && met[3] == latencies[5
        * i + 3]);
    if CoffeeHopper::needed(size) > machine.hopper.remaining() && latencies[5 * i] <= timeout {
        lemma_cause_is_told(outcomes, 0);
        let at = choose|k: int| 0 <= k < told.len() && told[k] == CoffeeHopper::shortage();
        assert(lines[at] == CoffeeHopper::shortage());
    }
    if WaterTank::needed(size) > machine.water.remaining() && latencies[5 * i + 1] <= timeout {
        lemma_cause_is_told(outcomes, 1);
        let at = choose|k: int| 0 <= k < told.len() && told[k] == WaterTank::shortage();
        assert(lines[at] == WaterTank::shortage());
    }
    if MilkTank::needed(size) > machine.milk.remaining() && latencies[5 * i + 3] <= timeout {
        lemma_cause_is_told(outcomes, 3);
        let at = choose|k: int| 0 <= k < told.len() && told[k] == MilkTank::shortage();
        assert(lines[at] == MilkTank::shortage());
    }
}

/// A batch for none of whose cups hopper and tanks hold enough never enters
/// the line: no order is started, and after the run every worker is done
/// without having made a probe or written a line.
pub proof fn lemma_unstocked_batch_stays_out(
    machine: Machine,
    timeout: usize,
    cups: Seq<Cup>,
    latencies: Seq<u64>,
    run: Seq<u64>,
)
    requires
        5 * cups.len() <= latencies.len(),
        forall|i: int| 0 <= i < cups.len() ==> !machine.stocked_for((#[trigger] cups[i]).size),
    ensures
        entered(machine, timeout, cups, latencies, cups.len()) == Seq::<ChannelData>::empty(),
        queued(machine, timeout, cups, latencies, cups.len()) == LineView::idle(machine, timeout),
        LineView::idle(machine, timeout).closed().probes(run) == 0,
        LineView::idle(machine, timeout).closed().ran(run).is_released(),
        forall|stage: Stage|
            (#[trigger] LineView::idle(machine, timeout).closed().ran(run).station(stage)).log
                == Seq::<Seq<char>>::empty(),
{
    lemma_none_enter(machine, timeout, cups, latencies, cups.len());
    assert(queued(machine, timeout, cups, latencies, cups.len()) =~= LineView::idle(
        machine,
        timeout,
    ));
    let line = LineView::idle(machine, timeout).closed();
    line.lemma_empty_coffee_branch_drains(run);
    line.coffee_ran(run).lemma_empty_milk_branch_drains(run.skip(0));
    line.lemma_closed_line_drains(run);
}

/// Where none of the first `n` orders is stocked for, none enters.
proof fn lemma_none_enter(
    machine: Machine,
    timeout: usize,
    cups: Seq<Cup>,
    latencies: Seq<u64>,
    n: nat,
)
    requires
        n <= cups.len(),
        5 * n <= latencies.len(),
        forall|i: int| 0 <= i < n ==> !machine.stocked_for((#[trigger] cups[i]).size),
    ensures
        entered(machine, timeout, cups, latencies, n) == Seq::<ChannelData>::empty(),
    decreases n,
{
    if n > 0 {
        lemma_none_enter(machine, timeout, cups, latencies, (n - 1) as nat);
        lemma_short_stock_turns_down(machine, timeout, cups, latencies, n - 1);
    }
}

/// What has come of a batch.
pub struct Served {
    /// The lines written to the console while the orders were checked and
    /// started, oldest first.
    pub console: Vec<String>,
    /// The line after its run, with the lines that each stage has written.
    pub line: Pipeline,
}

/// Takes a batch of cups through the machine: sets up the line, puts each
/// order to the five checks and starts it on both branches if all of them
/// pass, closes both entries, and runs the line until every worker is done.
/// The place of a cup in the batch is the number of its client.
pub fn serve<L: LatencySource>(cups: &Vec<Cup>, machine: Machine, timeout: usize, source: &mut L)
    -> (served: Served)
    ensures
        served.line.wf(),
        served.line@.is_released(),
        drew(
            old(source).drawn(),
            final(source).drawn(),
            (5 * cups.len()) as nat + queued(
                machine,
                timeout,
                cups@,
                since(old(source).drawn(), final(source).drawn()),
                cups.len() as nat,
            ).closed().probes(
                since(old(source).drawn(), final(source).drawn()).skip(5 * cups.len()),
            ),
        ),
        texts(served.console@) == console_texts(
            machine,
            timeout,
            cups@,
            since(old(source).drawn(), final(source).drawn()),
            cups.len() as nat,
        ),
        served.line@ == queued(
            machine,
            timeout,
            cups@,
            since(old(source).drawn(), final(source).drawn()),
            cups.len() as nat,
        ).closed().ran(
            since(old(source).drawn(), final(source).drawn()).skip(5 * cups.len()),
        ),
        timeout >= MAX_LATENCY && (forall|i: int|
            0 <= i < cups.len() ==> machine.stocked_for((#[trigger] cups[i]).size))
            ==> forall|stage: Stage|
            (#[trigger] served.line@.station(stage)).log == Seq::new(
                cups.len() as nat,
                |i: int| stage.success_text(i as usize),
            ),
        (forall|i: int| 0 <= i < cups.len() ==> !machine.stocked_for((#[trigger] cups[i]).size))
            ==> forall|stage: Stage|
            (#[trigger] served.line@.station(stage)).log == Seq::<Seq<char>>::empty(),
{
    let ghost before = source.drawn();
    let mut line = Pipeline::new(machine, timeout);
    let mut console: Vec<String> = Vec::new();
    let mut id: usize = 0;
    while id < cups.len()
        invariant
            id <= cups.len(),
            before == old(source).drawn(),
            line.wf(),
            drew(before, source.drawn(), (5 * id) as nat),
            line@ == queued(
                machine,
                timeout,
                cups@,
                since(before, source.drawn()),
                id as nat,
            ),
            texts(console@) == console_texts(
                machine,
                timeout,
                cups@,
                since(before, source.drawn()),
                id as nat,
            ),
        decreases cups.len() - id,
    {
        let ghost drawn = source.drawn();
        let ghost written = texts(console@);
        let checks = run_checks(timeout, cups[id].size, &machine, source);
        let mut causes = failures(&checks);
        let ghost caused = texts(causes@);
        console.append(&mut causes);
        proof {
            lemma_drew_more(before, drawn, source.drawn(), (5 * id) as nat, 5);
            let earlier = drawn.skip(before.len() as int);
            let fresh = since(before, source.drawn());
            lemma_orders_read_their_latencies(machine, timeout, cups@, earlier, fresh, id as nat);
            assert(order_latencies(fresh, id as int) =~= source.drawn().skip(drawn.len() as int));
            assert(texts(console@) =~= written + caused);
        }
        let ghost causes_written = texts(console@);
        if admitted(&checks) {
            let mut started = line.start(id, cups[id].size);
            let ghost lines = texts(started@);
            console.append(&mut started);
            assert(texts(console@) =~= causes_written + lines);
        } else {
            let ghost turned_down = rejection_text(cups[id as int].client@);
            console.push(rejection_line(cups[id].client.as_str()));
            assert(texts(console@) =~= causes_written + seq![turned_down]);
        }
        id += 1;
    }
    let ghost checked = source.drawn();
    line.close_entries();
    line.run(source);
    proof {
        let n = cups.len() as nat;
        let fresh = since(before, source.drawn());
        let at_checks = checked.skip(before.len() as int);
        lemma_drew_more(
            before,
            checked,
            source.drawn(),
            5 * n,
            queued(machine, timeout, cups@, at_checks, n).closed().probes(
                source.drawn().skip(checked.len() as int),
            ),
        );
        lemma_orders_read_their_latencies(machine, timeout, cups@, at_checks, fresh, n);
        assert(fresh.skip(5 * n as int) =~= source.drawn().skip(checked.len() as int));
        queued(machine, timeout, cups@, fresh, n).closed().lemma_closed_line_drains(
            fresh.skip(5 * n as int),
        );
        if timeout >= MAX_LATENCY && (forall|i: int|
            0 <= i < cups.len() ==> machine.stocked_for((#[trigger] cups[i]).size)) {
            lemma_ready_machine_serves_all(machine, timeout, cups@, fresh);
        }
        if forall|i: int| 0 <= i < cups.len() ==> !machine.stocked_for((#[trigger] cups[i]).size) {
            lemma_unstocked_batch_stays_out(
                machine,
                timeout,
                cups@,
                fresh,
                fresh.skip(5 * n as int),
            );
        }
    }
    Served { console, line }
}

} // verus!
