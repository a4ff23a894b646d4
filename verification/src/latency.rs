//! The response latencies that the probes meet: the range they come from,
//! the sources that hand them out, and the record of what a source has
//! handed out, by which the contracts tell what a probe has met.

use rand::Rng;
use vstd::prelude::*;

verus! {

/// The shortest response latency a probe can meet, in milliseconds.
pub const MIN_LATENCY: u64 = 2;

/// The longest response latency a probe can meet, in milliseconds.
pub const MAX_LATENCY: u64 = 99;

/// Whether a probe can meet this latency.
pub open spec fn drawable(ms: u64) -> bool {
    MIN_LATENCY <= ms <= MAX_LATENCY
}

/// Whether `after` is `before` followed by `n` drawable latencies.
pub open spec fn drew(before: Seq<u64>, after: Seq<u64>, n: nat) -> bool {
    &&& after.len() == before.len() + n
    &&& after.subrange(0, before.len() as int) =~= before
    &&& forall|i: int| before.len() <= i < after.len() ==> drawable(#[trigger] after[i])
}

/// The latencies that `after` holds beyond those of `before`: where a source
/// has gone from `before` to `after`, the latencies handed out since, oldest
/// first.
pub open spec fn since(before: Seq<u64>, after: Seq<u64>) -> Seq<u64> {
    after.skip(before.len() as int)
}

/// Draws add up: `n` latencies and then `m` more are `n + m` latencies, the
/// first `n` of them being those drawn first.
pub proof fn lemma_drew_more(a: Seq<u64>, b: Seq<u64>, c: Seq<u64>, n: nat, m: nat)
    requires
        drew(a, b, n),
        drew(b, c, m),
    ensures
        drew(a, c, n + m),
        c.skip(a.len() as int) == b.skip(a.len() as int) + c.skip(b.len() as int),
        forall|i: int| 0 <= i < b.len() ==> c[i] == b[i],
{
    assert forall|i: int| 0 <= i < b.len() implies c[i] == b[i] by {
        assert(c.subrange(0, b.len() as int)[i] == c[i]);
    }
    assert forall|i: int| 0 <= i < a.len() implies c[i] == a[i] by {
        assert(b.subrange(0, a.len() as int)[i] == b[i]);
    }
    assert(c.subrange(0, a.len() as int) =~= a);
    assert(c.skip(a.len() as int) =~= b.skip(a.len() as int) + c.skip(b.len() as int));
}

/// `rand::thread_rng` followed by `Rng::gen_range` on the half-open range
/// `low..high`. The value comes from the thread's generator, so all that is
/// claimed is that it lies in the range. `gen_range` panics on an empty
/// range, which `requires` leaves out.
#[verifier::external_body]
fn gen_range(low: u64, high: u64) -> (ms: u64)
    requires
        low < high,
    ensures
        low <= ms < high,
{
    rand::thread_rng().gen_range(low..high)
}

/// Where the response latencies of the probes come from.
///
/// A source may block its caller for the latency it hands out, as a slow
/// subsystem would; the probes only read the number.
pub trait LatencySource {
    /// The latencies handed out so far, oldest first.
    spec fn drawn(&self) -> Seq<u64>;

    /// Hands out the next latency, in milliseconds.
    fn next_latency(&mut self) -> (ms: u64)
        ensures
            drawable(ms),
            final(self).drawn() == old(self).drawn().push(ms),
    ;
}

/// Latencies drawn uniformly between [`MIN_LATENCY`] and [`MAX_LATENCY`] from
/// the calling thread's random number generator.
pub struct ThreadRngLatency {
    history: Ghost<Seq<u64>>,
}

impl ThreadRngLatency {
    /// A source that has handed out nothing yet.
    pub fn new() -> (source: Self)
        ensures
            source.drawn() == Seq::<u64>::empty(),
    {
        ThreadRngLatency { history: Ghost(Seq::empty()) }
    }
}

impl LatencySource for ThreadRngLatency {
    closed spec fn drawn(&self) -> Seq<u64> {
        self.history@
    }

    fn next_latency(&mut self) -> (ms: u64) {
        let ms: u64 = gen_range(MIN_LATENCY, MAX_LATENCY + 1);
        proof {
            self.history@ = self.history@.push(ms);
        }
        ms
    }
}

/// Something to do with each latency on its way from a source to a probe.
struct Pause<P: Fn(u64)> {
    pause: P,
}

impl<P: Fn(u64)> Pause<P> {
    #[verifier::type_invariant]
    spec fn takes_every_latency(self) -> bool {
        forall|ms: u64| drawable(ms) ==> call_requires(self.pause, (ms,))
    }

    /// Keeps `pause`, which must take every latency that a probe can meet.
    fn new(pause: P) -> (kept: Self)
        requires
            forall|ms: u64| drawable(ms) ==> call_requires(pause, (ms,)),
        ensures
            kept.pause == pause,
    {
        Pause { pause }
    }

    /// Passes one latency to the pause that is kept, and comes back when the
    /// pause does.
    fn wait(&self, ms: u64)
        requires
            drawable(ms),
        ensures
            call_ensures(self.pause, (ms,), ()),
    {
        proof {
            use_type_invariant(self);
        }
        (self.pause)(ms);
    }
}

/// The latencies of another source, each passed to `pause` before it is
/// handed out. With a pause that blocks for that many milliseconds the caller
/// waits for its answer as it would for a slow subsystem.
pub struct Paced<S: LatencySource, P: Fn(u64)> {
    source: S,
    pause: Pause<P>,
}

impl<S: LatencySource, P: Fn(u64)> Paced<S, P> {
    /// What each latency is passed to before it is handed out.
    pub closed spec fn pause(&self) -> P {
        self.pause.pause
    }

    /// Puts `pause` behind `source`. The pause must take every latency that a
    /// probe can meet.
    pub fn new(source: S, pause: P) -> (paced: Self)
        requires
            forall|ms: u64| drawable(ms) ==> call_requires(pause, (ms,)),
        ensures
            paced.drawn() == source.drawn(),
            paced.pause() == pause,
    {
        Paced { source, pause: Pause::new(pause) }
    }
}

impl<S: LatencySource, P: Fn(u64)> LatencySource for Paced<S, P> {
    closed spec fn drawn(&self) -> Seq<u64> {
        self.source.drawn()
    }

    fn next_latency(&mut self) -> (ms: u64)
        ensures
            final(self).pause() == old(self).pause(),
            call_ensures(old(self).pause(), (ms,), ()),
    {
        let ms: u64 = self.source.next_latency();
        self.pause.wait(ms);
        ms
    }
}

/// Latencies read off a script, round and round: the source to use where a
/// run has to repeat.
pub struct ScriptedLatency {
    script: Vec<u64>,
    cursor: usize,
    history: Ghost<Seq<u64>>,
}

impl ScriptedLatency {
    #[verifier::type_invariant]
    spec fn well_formed(self) -> bool {
        &&& self.cursor < self.script.len()
        &&& forall|i: int| 0 <= i < self.script.len() ==> drawable(#[trigger] self.script[i])
    }

    /// The latencies of one round.
    pub closed spec fn script(&self) -> Seq<u64> {
        self.script@
    }

    /// The place in the script of the latency that comes next.
    pub closed spec fn cursor(&self) -> nat {
        self.cursor as nat
    }

    /// A source that starts at the head of `script`; none where the script is
    /// empty or holds a latency that no probe can meet.
    pub fn new(script: Vec<u64>) -> (made: Option<Self>)
        ensures
            made is Some <==> script.len() > 0 && forall|i: int|
                0 <= i < script.len() ==> drawable(#[trigger] script[i]),
            made matches Some(source) ==> source.script() == script@ && source.cursor() == 0
                && source.drawn() == Seq::<u64>::empty(),
    {
        if script.len() == 0 {
            return None;
        }
        let mut i: usize = 0;
        while i < script.len()
            invariant
                i <= script.len(),
                forall|j: int| 0 <= j < i ==> drawable(#[trigger] script[j]),
            decreases script.len() - i,
        {
            if script[i] < MIN_LATENCY || script[i] > MAX_LATENCY {
                assert(!drawable(script[i as int]));
                return None;
            }
            i += 1;
        }
        Some(ScriptedLatency { script, cursor: 0, history: Ghost(Seq::empty()) })
    }
}

impl LatencySource for ScriptedLatency {
    closed spec fn drawn(&self) -> Seq<u64> {
        self.history@
    }

    fn next_latency(&mut self) -> (ms: u64)
        ensures
            ms == old(self).script()[old(self).cursor() as int],
            final(self).script() == old(self).script(),
            final(self).cursor() == if old(self).cursor() + 1 < old(self).script().len() {
                old(self).cursor() + 1
            } else {
                0
            },
    {
        proof {
            use_type_invariant(&*self);
        }
        let ms: u64 = self.script[self.cursor];
        let next: usize = if self.cursor + 1 < self.script.len() {
            self.cursor + 1
        } else {
            0
        };
        self.cursor = next;
        proof {
            self.history@ = self.history@.push(ms);
        }
        ms
    }
}

} // verus!
