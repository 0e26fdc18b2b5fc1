//! The vector-matrix block and the activation block.
use vstd::prelude::*;
use crate::events::{Action, BlockError, Event, Phase};
use crate::linalg::{affine, affine_fits, affine_spec, Matrix};

verus! {

/// The count of invocations after one more has begun; it stays at the
/// largest `u64` once there.
pub open spec fn next_count(n: u64) -> u64 {
    if n < u64::MAX { (n + 1) as u64 } else { n }
}

/// A vector-matrix block: it takes in a vector of `input_size()` scalars, one
/// per cycle, then emits `W·x + b` one entry at a time, then waits out its
/// initiation interval before taking in the next vector.
pub struct GEMV {
    weights: Matrix,
    biases: Vec<i64>,
    initiation_interval: u64,
    phase: Phase,
    buffer: Vec<i64>,
    outputs: Vec<i64>,
    emitted: usize,
    invocation: u64,
    now: u64,
    mark: u64,
    start: u64,
    flushed: u64,
}

impl GEMV {
    pub closed spec fn weights(&self) -> Seq<Seq<i64>> {
        self.weights.view_rows()
    }

    pub closed spec fn biases(&self) -> Seq<i64> {
        self.biases@
    }

    pub closed spec fn interval(&self) -> u64 {
        self.initiation_interval
    }

    pub closed spec fn input_size(&self) -> nat {
        self.weights.spec_ncols()
    }

    pub open spec fn output_size(&self) -> nat {
        self.biases().len()
    }

    pub closed spec fn state(&self) -> Phase {
        self.phase
    }

    /// The scalars of the current vector received so far.
    pub closed spec fn received(&self) -> Seq<i64> {
        self.buffer@
    }

    /// The entries of `W·x + b` for the current vector.
    pub closed spec fn outputs(&self) -> Seq<i64> {
        self.outputs@
    }

    /// How many entries of the current output have been sent.
    pub closed spec fn emitted(&self) -> nat {
        self.emitted as nat
    }

    /// The number of the current invocation, counted from zero.
    pub closed spec fn invocation(&self) -> u64 {
        self.invocation
    }

    /// The latest clock reading the block has seen.
    pub closed spec fn clock(&self) -> u64 {
        self.now
    }

    /// The cycle at which the current invocation began.
    pub closed spec fn start_time(&self) -> u64 {
        self.start
    }

    /// The cycle at which the last output of the current invocation was sent.
    pub closed spec fn flush_time(&self) -> u64 {
        self.flushed
    }

    /// The cycle at which the pending clock advance was asked for.
    pub closed spec fn mark(&self) -> u64 {
        self.mark
    }

    pub closed spec fn wf(&self) -> bool {
        &&& self.weights.wf()
        &&& self.biases@.len() == self.weights.view_rows().len()
        &&& self.buffer@.len() <= self.weights.spec_ncols()
        &&& self.mark <= self.now
        &&& self.phase == Phase::Receiving ==> {
            &&& self.buffer@.len() < self.weights.spec_ncols()
            &&& self.now >= self.start + self.buffer@.len()
        }
        &&& self.phase == Phase::Pacing ==> {
            &&& 1 <= self.buffer@.len()
            &&& self.mark + 1 >= self.start + self.buffer@.len()
        }
        &&& self.phase == Phase::Emitting ==> {
            &&& self.buffer@.len() == self.weights.spec_ncols()
            &&& self.outputs_match()
            &&& self.emitted < self.outputs@.len()
            &&& self.now >= self.start + self.weights.spec_ncols()
        }
        &&& self.phase == Phase::Cooldown ==> {
            &&& self.buffer@.len() == self.weights.spec_ncols()
            &&& self.mark == self.flushed
            &&& self.flushed >= self.start + self.weights.spec_ncols()
        }
    }

    /// The outputs are `W·x + b` of the received vector.
    pub open spec fn outputs_match(&self) -> bool {
        &&& self.outputs().len() == self.output_size()
        &&& self.outputs().map_values(|v: i64| v as int) == affine_spec(
            self.weights(),
            self.biases(),
            self.received(),
        )
    }

    /// The parts that construction fixes are those of `other`.
    pub open spec fn same_config(&self, other: &GEMV) -> bool {
        &&& self.weights() == other.weights()
        &&& self.biases() == other.biases()
        &&& self.interval() == other.interval()
        &&& self.input_size() == other.input_size()
    }

    /// Whether `event` at clock reading `now` answers the block's last action:
    /// the clock never runs backwards, and an advance took at least what was
    /// asked.
    pub open spec fn accepts_spec(&self, now: u64, event: Event) -> bool {
        &&& now >= self.clock()
        &&& match self.state() {
            Phase::Ready => event == Event::Start,
            Phase::Receiving => event is Received || event == Event::Closed,
            Phase::Pacing => event == Event::Advanced && now >= self.mark() + 1,
            Phase::Emitting => event == Event::Sent || event == Event::SendFailed,
            Phase::Cooldown => event == Event::Advanced && now >= self.mark() + self.interval(),
            _ => false,
        }
    }

    /// The block has sent its last output at `now` and waits out its interval.
    pub open spec fn flushing(&self, now: u64, a: Action) -> bool {
        &&& self.state() == Phase::Cooldown
        &&& self.flush_time() == now
        &&& self.mark() == now
        &&& a == Action::Advance(self.interval())
    }

    /// The block sends output `emitted()`, stamped `now + 1 + emitted()`, or
    /// stops where that stamp does not fit the clock.
    pub open spec fn emitting(&self, now: u64, a: Action) -> bool {
        if now + 1 + self.emitted() <= u64::MAX {
            &&& self.state() == Phase::Emitting
            &&& a == (Action::Enqueue {
                time: (now + 1 + self.emitted()) as u64,
                value: self.outputs()[self.emitted() as int],
            })
        } else {
            &&& self.state() == Phase::Failed
            &&& a == Action::Fail(BlockError::ClockOverflow)
        }
    }

    /// The block has the whole vector at `now` and has computed `W·x + b`.
    pub open spec fn computed(&self, now: u64, a: Action) -> bool {
        if affine_fits(self.weights(), self.biases(), self.received()) {
            &&& self.outputs_match()
            &&& self.emitted() == 0
            &&& if self.output_size() == 0 {
                self.flushing(now, a)
            } else {
                self.emitting(now, a)
            }
        } else {
            &&& self.state() == Phase::Failed
            &&& a == Action::Fail(BlockError::Overflow { invocation: self.invocation() })
        }
    }

    /// The block begins an invocation at `now`.
    pub open spec fn beginning(&self, now: u64, a: Action) -> bool {
        &&& self.start_time() == now
        &&& self.received().len() == 0
        &&& if self.input_size() > 0 {
            self.state() == Phase::Receiving && a == Action::Dequeue
        } else {
            self.computed(now, a)
        }
    }

    /// A block with these weights, biases and interval, not started yet.
    pub fn new(weights: Matrix, biases: Vec<i64>, initiation_interval: u64) -> (g: GEMV)
        requires
            weights.wf(),
            biases@.len() == weights.view_rows().len(),
        ensures
            g.wf(),
            g.weights() == weights.view_rows(),
            g.input_size() == weights.spec_ncols(),
            g.biases() == biases@,
            g.interval() == initiation_interval,
            g.state() == Phase::Ready,
            g.clock() == 0,
            g.invocation() == 0,
    {
        GEMV {
            weights,
            biases,
            initiation_interval,
            phase: Phase::Ready,
            buffer: Vec::new(),
            outputs: Vec::new(),
            emitted: 0,
            invocation: 0,
            now: 0,
            mark: 0,
            start: 0,
            flushed: 0,
        }
    }

    pub fn phase(&self) -> (p: Phase)
        ensures
            p == self.state(),
    {
        self.phase
    }

    /// Whether `step` may be called with this clock reading and event.
    pub fn accepts(&self, now: u64, event: &Event) -> (r: bool)
        requires
            self.wf(),
        ensures
            r == self.accepts_spec(now, *event),
    {
        if now < self.now {
            return false;
        }
        match self.phase {
            Phase::Ready => *event == Event::Start,
            Phase::Receiving => match event {
                Event::Received { .. } | Event::Closed => true,
                _ => false,
            },
            Phase::Pacing => *event == Event::Advanced && now > self.mark,
            Phase::Emitting => *event == Event::Sent || *event == Event::SendFailed,
            Phase::Cooldown => *event == Event::Advanced && now - self.mark >= self.initiation_interval,
            _ => false,
        }
    }

    fn send_next(&mut self, now: u64) -> (a: Action)
        requires
            old(self).weights.wf(),
            old(self).biases@.len() == old(self).weights.view_rows().len(),
            old(self).buffer@.len() == old(self).weights.spec_ncols(),
            old(self).outputs_match(),
            old(self).emitted < old(self).outputs@.len(),
            old(self).mark <= now,
            now >= old(self).start + old(self).weights.spec_ncols(),
        ensures
            final(self).wf(),
            final(self).emitting(now, a),
            final(self).same_config(old(self)),
            final(self).received() == old(self).received(),
            final(self).outputs() == old(self).outputs(),
            final(self).emitted() == old(self).emitted(),
            final(self).invocation() == old(self).invocation(),
            final(self).start_time() == old(self).start_time(),
            final(self).now == now,
    {
        self.now = now;
        let j = self.emitted;
        if now < u64::MAX && j as u64 <= u64::MAX - now - 1 {
            self.phase = Phase::Emitting;
            Action::Enqueue { time: now + 1 + j as u64, value: self.outputs[j] }
        } else {
            self.phase = Phase::Failed;
            Action::Fail(BlockError::ClockOverflow)
        }
    }

    fn flush(&mut self, now: u64) -> (a: Action)
        requires
            old(self).weights.wf(),
            old(self).biases@.len() == old(self).weights.view_rows().len(),
            old(self).buffer@.len() == old(self).weights.spec_ncols(),
            now >= old(self).start + old(self).weights.spec_ncols(),
        ensures
            final(self).wf(),
            final(self).flushing(now, a),
            final(self).same_config(old(self)),
            final(self).received() == old(self).received(),
            final(self).outputs() == old(self).outputs(),
            final(self).emitted() == old(self).emitted(),
            final(self).invocation() == old(self).invocation(),
            final(self).start_time() == old(self).start_time(),
            final(self).now == now,
    {
        self.now = now;
        self.mark = now;
        self.flushed = now;
        self.phase = Phase::Cooldown;
        Action::Advance(self.initiation_interval)
    }

    fn compute(&mut self, now: u64) -> (a: Action)
        requires
            old(self).weights.wf(),
            old(self).biases@.len() == old(self).weights.view_rows().len(),
            old(self).buffer@.len() == old(self).weights.spec_ncols(),
            old(self).mark <= now,
            now >= old(self).start + old(self).weights.spec_ncols(),
        ensures
            final(self).wf(),
            final(self).computed(now, a),
            final(self).same_config(old(self)),
            final(self).received() == old(self).received(),
            final(self).invocation() == old(self).invocation(),
            final(self).start_time() == old(self).start_time(),
            final(self).now == now,
    {
        self.now = now;
        match affine(&self.weights, &self.biases, &self.buffer) {
            Some(out) => {
                assert(out@.map_values(|v: i64| v as int) =~= affine_spec(
                    self.weights(),
                    self.biases(),
                    self.received(),
                ));
                self.outputs = out;
                self.emitted = 0;
                if self.outputs.len() == 0 {
                    self.flush(now)
                } else {
                    self.send_next(now)
                }
            },
            None => {
                self.phase = Phase::Failed;
                Action::Fail(BlockError::Overflow { invocation: self.invocation })
            },
        }
    }

    fn begin(&mut self, now: u64) -> (a: Action)
        requires
            old(self).weights.wf(),
            old(self).biases@.len() == old(self).weights.view_rows().len(),
            old(self).mark <= now,
        ensures
            final(self).wf(),
            final(self).beginning(now, a),
            final(self).same_config(old(self)),
            final(self).invocation() == old(self).invocation(),
            final(self).now == now,
    {
        self.now = now;
        self.start = now;
        self.buffer = Vec::new();
        if self.weights.ncols() > 0 {
            self.phase = Phase::Receiving;
            Action::Dequeue
        } else {
            self.compute(now)
        }
    }

    /// Takes the scheduler's report of the last action, read at clock `now`,
    /// and returns the next action.
    pub fn step(&mut self, now: u64, event: Event) -> (a: Action)
        requires
            old(self).wf(),
            old(self).accepts_spec(now, event),
        ensures
            final(self).wf(),
            final(self).same_config(old(self)),
            final(self).clock() == now,
            // Starting: the first invocation begins.
            old(self).state() == Phase::Ready ==> final(self).invocation() == 0
                && final(self).beginning(now, a),
            // One scalar arrives; it takes one cycle.
            event is Received && old(self).state() == Phase::Receiving ==> {
                &&& final(self).state() == Phase::Pacing
                &&& final(self).mark() == now
                &&& final(self).received() == old(self).received().push(event->value)
                &&& final(self).invocation() == old(self).invocation()
                &&& final(self).start_time() == old(self).start_time()
                &&& a == Action::Advance(1)
            },
            // The input closes: cleanly between vectors, fatally within one.
            event == Event::Closed ==> if old(self).received().len() == 0 {
                final(self).state() == Phase::Done && a == Action::Finish
            } else {
                &&& final(self).state() == Phase::Failed
                &&& a == Action::Fail(
                    BlockError::PrematureClose {
                        invocation: old(self).invocation(),
                        received: old(self).received().len() as usize,
                    },
                )
            },
            // The cycle of a scalar has passed: ask for the next one, or compute.
            old(self).state() == Phase::Pacing ==> {
                &&& final(self).received() == old(self).received()
                &&& final(self).invocation() == old(self).invocation()
                &&& final(self).start_time() == old(self).start_time()
                &&& if old(self).received().len() < old(self).input_size() {
                    final(self).state() == Phase::Receiving && a == Action::Dequeue
                } else {
                    final(self).computed(now, a)
                }
            },
            // One output has been sent: send the next, or wait out the interval.
            event == Event::Sent ==> {
                &&& final(self).received() == old(self).received()
                &&& final(self).outputs() == old(self).outputs()
                &&& final(self).invocation() == old(self).invocation()
                &&& final(self).start_time() == old(self).start_time()
                &&& final(self).emitted() == old(self).emitted() + 1
                &&& if final(self).emitted() < old(self).output_size() {
                    final(self).emitting(now, a)
                } else {
                    final(self).flushing(now, a)
                }
            },
            event == Event::SendFailed ==> final(self).state() == Phase::Failed && a == Action::Fail(
                BlockError::SendFailed,
            ),
            // The interval has passed: the next invocation begins, no sooner
            // than the interval after the last output, and the input transfer
            // after the previous start.
            old(self).state() == Phase::Cooldown ==> {
                &&& final(self).invocation() == next_count(old(self).invocation())
                &&& final(self).beginning(now, a)
                &&& now >= old(self).flush_time() + old(self).interval()
                &&& old(self).flush_time() >= old(self).start_time() + old(self).input_size()
            },
    {
        match event {
            Event::Start => {
                self.invocation = 0;
                self.begin(now)
            },
            Event::Received { value, .. } => {
                self.buffer.push(value);
                self.now = now;
                self.mark = now;
                self.phase = Phase::Pacing;
                Action::Advance(1)
            },
            Event::Closed => {
                self.now = now;
                if self.buffer.len() == 0 {
                    self.phase = Phase::Done;
                    Action::Finish
                } else {
                    self.phase = Phase::Failed;
                    Action::Fail(
                        BlockError::PrematureClose {
                            invocation: self.invocation,
                            received: self.buffer.len(),
                        },
                    )
                }
            },
            Event::Sent => {
                let n = self.outputs.len();
                self.emitted = self.emitted + 1;
                if self.emitted < n {
                    self.send_next(now)
                } else {
                    self.flush(now)
                }
            },
            Event::SendFailed => {
                self.now = now;
                self.phase = Phase::Failed;
                Action::Fail(BlockError::SendFailed)
            },
            Event::Advanced => {
                if self.phase == Phase::Pacing {
                    if self.buffer.len() < self.weights.ncols() {
                        self.now = now;
                        self.phase = Phase::Receiving;
                        Action::Dequeue
                    } else {
                        self.compute(now)
                    }
                } else {
                    if self.invocation < u64::MAX {
                        self.invocation = self.invocation + 1;
                    }
                    self.begin(now)
                }
            },
        }
    }
}

/// Rows leave in order: when a vector-matrix block sends row `j` and then,
/// at a later or equal clock reading, row `j + 1` of the same output, the
/// second carries the next entry of `W·x + b` and a strictly later timestamp.
pub proof fn lemma_rows_in_order(g1: GEMV, now1: u64, a1: Action, g2: GEMV, now2: u64, a2: Action)
    requires
        g1.wf(),
        g2.wf(),
        g1.state() == Phase::Emitting,
        g2.state() == Phase::Emitting,
        g1.emitting(now1, a1),
        g2.emitting(now2, a2),
        g2.same_config(&g1),
        g2.received() == g1.received(),
        g2.emitted() == g1.emitted() + 1,
        now2 >= now1,
    ensures
        a1 is Enqueue && a2 is Enqueue,
        a1->time < a2->time,
        a1->value == affine_spec(g1.weights(), g1.biases(), g1.received())[g1.emitted() as int],
        a2->value == affine_spec(g1.weights(), g1.biases(), g1.received())[g1.emitted() + 1 as int],
{
    assert(a1->value == g1.outputs().map_values(|v: i64| v as int)[g1.emitted() as int]);
    assert(a2->value == g2.outputs().map_values(|v: i64| v as int)[g2.emitted() as int]);
}

/// Composition: what a vector-matrix block sends for row `j` after taking in
/// `x`, passed through any transform `f`, is `f((W·x + b)[j])`, and that
/// entry of `W·x + b` is exactly representable.
pub proof fn lemma_composition<F: Transform>(g: GEMV, now: u64, sent: Action, f: F)
    requires
        g.wf(),
        g.state() == Phase::Emitting,
        g.emitting(now, sent),
    ensures
        g.received().len() == g.input_size(),
        sent is Enqueue,
        i64::MIN <= affine_spec(g.weights(), g.biases(), g.received())[g.emitted() as int] <= i64::MAX,
        f.spec_apply(sent->value) == f.spec_apply(
            affine_spec(g.weights(), g.biases(), g.received())[g.emitted() as int] as i64,
        ),
{
    assert(sent->value == g.outputs().map_values(|v: i64| v as int)[g.emitted() as int]);
}

/// A pure map from one scalar to one scalar, applied by an activation block.
pub trait Transform {
    spec fn spec_apply(&self, x: i64) -> i64;

    fn apply(&self, x: i64) -> (r: i64)
        ensures
            r == self.spec_apply(x),
    ;
}

/// The rectifier: negative values become zero, others pass unchanged.
#[derive(Clone, Copy, Debug)]
pub struct Relu;

impl Transform for Relu {
    open spec fn spec_apply(&self, x: i64) -> i64 {
        if x < 0 { 0 } else { x }
    }

    fn apply(&self, x: i64) -> (r: i64) {
        if x < 0 { 0 } else { x }
    }
}

/// An activation block: it applies `func` to each scalar it receives and
/// emits the result one cycle after the scalar's own timestamp, then waits
/// out its initiation interval before the next dequeue.
pub struct Activation<F: Transform> {
    func: F,
    initiation_interval: u64,
    phase: Phase,
    now: u64,
    mark: u64,
}

impl<F: Transform> Activation<F> {
    pub closed spec fn func(&self) -> F {
        self.func
    }

    pub closed spec fn interval(&self) -> u64 {
        self.initiation_interval
    }

    pub closed spec fn state(&self) -> Phase {
        self.phase
    }

    /// The latest clock reading the block has seen.
    pub closed spec fn clock(&self) -> u64 {
        self.now
    }

    /// The cycle at which the pending clock advance was asked for.
    pub closed spec fn mark(&self) -> u64 {
        self.mark
    }

    pub closed spec fn wf(&self) -> bool {
        &&& self.mark <= self.now
        &&& self.phase != Phase::Pacing
    }

    /// Whether `event` at clock reading `now` answers the block's last action.
    pub open spec fn accepts_spec(&self, now: u64, event: Event) -> bool {
        &&& now >= self.clock()
        &&& match self.state() {
            Phase::Ready => event == Event::Start,
            Phase::Receiving => event is Received || event == Event::Closed,
            Phase::Emitting => event == Event::Sent || event == Event::SendFailed,
            Phase::Cooldown => event == Event::Advanced && now >= self.mark() + self.interval(),
            _ => false,
        }
    }

    /// A block applying `func`, with this interval, not started yet.
    pub fn new(initiation_interval: u64, func: F) -> (a: Activation<F>)
        ensures
            a.wf(),
            a.func() == func,
            a.interval() == initiation_interval,
            a.state() == Phase::Ready,
            a.clock() == 0,
    {
        Activation { func, initiation_interval, phase: Phase::Ready, now: 0, mark: 0 }
    }

    pub fn phase(&self) -> (p: Phase)
        ensures
            p == self.state(),
    {
        self.phase
    }

    /// Whether `step` may be called with this clock reading and event.
    pub fn accepts(&self, now: u64, event: &Event) -> (r: bool)
        requires
            self.wf(),
        ensures
            r == self.accepts_spec(now, *event),
    {
        if now < self.now {
            return false;
        }
        match self.phase {
            Phase::Ready => *event == Event::Start,
            Phase::Receiving => match event {
                Event::Received { .. } | Event::Closed => true,
                _ => false,
            },
            Phase::Emitting => *event == Event::Sent || *event == Event::SendFailed,
            Phase::Cooldown => *event == Event::Advanced && now - self.mark >= self.initiation_interval,
            _ => false,
        }
    }

    /// Takes the scheduler's report of the last action, read at clock `now`,
    /// and returns the next action.
    pub fn step(&mut self, now: u64, event: Event) -> (a: Action)
        requires
            old(self).wf(),
            old(self).accepts_spec(now, event),
        ensures
            final(self).wf(),
            final(self).func() == old(self).func(),
            final(self).interval() == old(self).interval(),
            final(self).clock() == now,
            // Starting, or the interval has passed: ask for the next scalar.
            (old(self).state() == Phase::Ready || old(self).state() == Phase::Cooldown) ==> {
                &&& final(self).state() == Phase::Receiving
                &&& a == Action::Dequeue
            },
            // A scalar arrives: its image leaves one cycle after its timestamp.
            event is Received ==> if event->time < u64::MAX {
                &&& final(self).state() == Phase::Emitting
                &&& a == (Action::Enqueue {
                    time: (event->time + 1) as u64,
                    value: old(self).func().spec_apply(event->value),
                })
            } else {
                final(self).state() == Phase::Failed && a == Action::Fail(BlockError::ClockOverflow)
            },
            // Every close is a clean end of stream.
            event == Event::Closed ==> final(self).state() == Phase::Done && a == Action::Finish,
            event == Event::Sent ==> {
                &&& final(self).state() == Phase::Cooldown
                &&& final(self).mark() == now
                &&& a == Action::Advance(old(self).interval())
            },
            event == Event::SendFailed ==> final(self).state() == Phase::Failed && a == Action::Fail(
                BlockError::SendFailed,
            ),
    {
        self.now = now;
        match event {
            Event::Start | Event::Advanced => {
                self.phase = Phase::Receiving;
                Action::Dequeue
            },
            Event::Received { time, value } => {
                if time < u64::MAX {
                    self.phase = Phase::Emitting;
                    Action::Enqueue { time: time + 1, value: self.func.apply(value) }
                } else {
                    self.phase = Phase::Failed;
                    Action::Fail(BlockError::ClockOverflow)
                }
            },
            Event::Closed => {
                self.phase = Phase::Done;
                Action::Finish
            },
            Event::Sent => {
                self.mark = now;
                self.phase = Phase::Cooldown;
                Action::Advance(self.initiation_interval)
            },
            Event::SendFailed => {
                self.phase = Phase::Failed;
                Action::Fail(BlockError::SendFailed)
            },
        }
    }
}

} // verus!
