use vstd::arithmetic::div_mod::lemma_div_is_ordered;
use vstd::prelude::*;

verus! {

/// Nanoseconds in one second: the unit of every timestamp.
pub const NANOS_PER_SECOND: u64 = 1_000_000_000;

/// Timestamp, in nanoseconds and rounded down, of the sample with index
/// `samples` at `rate` samples per second.
pub open spec fn nanos_of(samples: nat, rate: nat) -> nat {
    (samples * 1_000_000_000) / rate
}

/// `a * b / c` rounded down, or None when it does not fit in a `u64`.
pub fn mul_div_floor(a: u64, b: u64, c: u64) -> (r: Option<u64>)
    requires
        c > 0,
    ensures
        (a as nat * b as nat) / (c as nat) <= u64::MAX ==> r == Some(
            ((a as nat * b as nat) / (c as nat)) as u64,
        ),
        (a as nat * b as nat) / (c as nat) > u64::MAX ==> r is None,
{
    assert(a as nat * b as nat <= 0xffff_ffff_ffff_ffff_ffff_ffff_ffff_ffffnat) by (nonlinear_arith)
        requires
            a <= u64::MAX,
            b <= u64::MAX,
    ;
    let prod: u128 = (a as u128) * (b as u128);
    assert(prod == a as nat * b as nat);
    let q: u128 = prod / (c as u128);
    if q <= u64::MAX as u128 {
        Some(q as u64)
    } else {
        None
    }
}

/// Converts a sample count to nanoseconds at `rate`, rounding down.
pub fn samples_to_nanos(samples: u64, rate: u64) -> (r: Option<u64>)
    requires
        rate > 0,
    ensures
        nanos_of(samples as nat, rate as nat) <= u64::MAX ==> r == Some(
            nanos_of(samples as nat, rate as nat) as u64,
        ),
        nanos_of(samples as nat, rate as nat) > u64::MAX ==> r is None,
{
    mul_div_floor(samples, NANOS_PER_SECOND, rate)
}

/// Whole frames held by a chunk of `chunk_bytes` bytes, or None when a frame
/// has no size.
pub fn frames_in_chunk(chunk_bytes: u64, bytes_per_frame: u64) -> (r: Option<u64>)
    ensures
        bytes_per_frame == 0 ==> r is None,
        bytes_per_frame > 0 ==> r == Some((chunk_bytes / bytes_per_frame) as u64),
{
    if bytes_per_frame == 0 {
        None
    } else {
        Some(chunk_bytes / bytes_per_frame)
    }
}

/// Rounding down keeps the order of sample counts: a later sample never has
/// an earlier timestamp.
pub proof fn lemma_nanos_monotone(a: nat, b: nat, rate: nat)
    requires
        rate > 0,
        a <= b,
    ensures
        nanos_of(a, rate) <= nanos_of(b, rate),
{
    assert(a * 1_000_000_000 <= b * 1_000_000_000) by (nonlinear_arith)
        requires
            a <= b,
    ;
    lemma_div_is_ordered((a * 1_000_000_000) as int, (b * 1_000_000_000) as int, rate as int);
}

/// A chunk handed out by the feeder: its first sample's index, its sample
/// count, and its timestamp and duration in nanoseconds. The duration runs
/// to the next chunk's timestamp, so durations add up to timestamps exactly.
#[derive(Clone, Copy, Debug, PartialEq, Eq, Structural)]
pub struct Chunk {
    pub first_sample: u64,
    pub samples: u64,
    pub pts: u64,
    pub duration: u64,
}

/// What one activation of the generation task produced.
#[derive(Clone, Copy, Debug, PartialEq, Eq, Structural)]
pub enum Generated {
    /// A chunk to push downstream.
    Data(Chunk),
    /// The task is not the feeder's current one: generate nothing and stop.
    Idle,
    /// Timestamps no longer fit: feeding has stopped.
    Exhausted,
}

/// The feeder's state as a mathematical value.
pub struct FeederView {
    pub rate: nat,
    pub chunk: nat,
    pub samples: nat,
    /// The one scheduled generation task, if any; feeding is on exactly when
    /// it is present.
    pub task: Option<u64>,
    pub next_task: u64,
}

/// The id handed out after `id`.
pub open spec fn following_id(id: u64) -> u64 {
    if id < u64::MAX {
        (id + 1) as u64
    } else {
        0
    }
}

/// The chunk that the task would produce from state `v`.
pub open spec fn chunk_at(v: FeederView) -> Chunk {
    Chunk {
        first_sample: v.samples as u64,
        samples: v.chunk as u64,
        pts: nanos_of(v.samples, v.rate) as u64,
        duration: (nanos_of(v.samples + v.chunk, v.rate) - nanos_of(v.samples, v.rate)) as u64,
    }
}

/// Whether the next chunk's sample counter and timestamps fit in 64 bits.
pub open spec fn chunk_fits(v: FeederView) -> bool {
    &&& v.samples + v.chunk <= u64::MAX
    &&& nanos_of(v.samples + v.chunk, v.rate) <= u64::MAX
}

impl FeederView {
    pub open spec fn feeding(self) -> bool {
        self.task is Some
    }

    /// A need-data signal: schedule a task unless one is already scheduled.
    pub open spec fn need_data(self) -> FeederView {
        if self.task is Some {
            self
        } else {
            FeederView {
                task: Some(self.next_task),
                next_task: following_id(self.next_task),
                ..self
            }
        }
    }

    /// An enough-data signal: drop the scheduled task, if any.
    pub open spec fn enough_data(self) -> FeederView {
        FeederView { task: None, ..self }
    }

    /// One activation of task `t`.
    pub open spec fn generate(self, t: u64) -> FeederView {
        if self.task != Some(t) {
            self
        } else if chunk_fits(self) {
            FeederView { samples: self.samples + self.chunk, ..self }
        } else {
            FeederView { task: None, ..self }
        }
    }

    /// The result of pushing task `t`'s chunk downstream.
    pub open spec fn pushed(self, t: u64, ok: bool) -> FeederView {
        if !ok && self.task == Some(t) {
            FeederView { task: None, ..self }
        } else {
            self
        }
    }
}

/// The state after `k` activations of task `t`.
pub open spec fn activations(v: FeederView, t: u64, k: nat) -> FeederView
    decreases k,
{
    if k == 0 {
        v
    } else {
        activations(v, t, (k - 1) as nat).generate(t)
    }
}

/// The summed durations of the first `k` chunks handed out by task `t`.
pub open spec fn durations_total(v: FeederView, t: u64, k: nat) -> int
    decreases k,
{
    if k == 0 {
        0
    } else {
        durations_total(v, t, (k - 1) as nat) + chunk_at(activations(v, t, (k - 1) as nat)).duration
    }
}

/// Consecutive chunks are spaced by exactly the first one's duration, and
/// timestamps never decrease.
pub proof fn lemma_chunk_spacing(v: FeederView, t: u64)
    requires
        v.rate > 0,
        v.task == Some(t),
        chunk_fits(v),
        chunk_fits(v.generate(t)),
    ensures
        chunk_at(v.generate(t)).pts == chunk_at(v).pts + chunk_at(v).duration,
        chunk_at(v).pts <= chunk_at(v.generate(t)).pts,
{
    lemma_nanos_monotone(v.samples, v.samples + v.chunk, v.rate);
}

/// Running task `t` `k` times, while every chunk fits: the counter has
/// advanced by `k` chunks, so the `k`-th chunk (from 0) is stamped
/// `nanos_of(samples + k * chunk)`, and the durations of the first `k` chunks
/// add up exactly to the time between the first timestamp and that one.
pub proof fn lemma_activations(v: FeederView, t: u64, k: nat)
    requires
        v.rate > 0,
        v.task == Some(t),
        forall|j: nat| j < k ==> chunk_fits(#[trigger] activations(v, t, j)),
    ensures
        activations(v, t, k).samples == v.samples + k * v.chunk,
        activations(v, t, k).task == Some(t),
        activations(v, t, k).rate == v.rate,
        activations(v, t, k).chunk == v.chunk,
        durations_total(v, t, k) == nanos_of(v.samples + k * v.chunk, v.rate) - nanos_of(
            v.samples,
            v.rate,
        ),
    decreases k,
{
    if k > 0 {
        let k1 = (k - 1) as nat;
        lemma_activations(v, t, k1);
        let w = activations(v, t, k1);
        assert(chunk_fits(w));
        lemma_nanos_monotone(w.samples, w.samples + w.chunk, w.rate);
        assert(activations(v, t, k) == w.generate(t));
        assert(durations_total(v, t, k) == durations_total(v, t, k1) + chunk_at(w).duration);
        assert(v.samples + k1 * v.chunk + v.chunk == v.samples + k * v.chunk) by (nonlinear_arith)
            requires
                k1 + 1 == k,
        ;
    } else {
        assert(k * v.chunk == 0) by (nonlinear_arith)
            requires
                k == 0,
        ;
    }
}

/// A signal or activation seen by a feeder.
pub enum FeedEvent {
    NeedData,
    EnoughData,
    Activate(u64),
    Pushed(u64, bool),
}

pub open spec fn apply_event(v: FeederView, e: FeedEvent) -> FeederView {
    match e {
        FeedEvent::NeedData => v.need_data(),
        FeedEvent::EnoughData => v.enough_data(),
        FeedEvent::Activate(t) => v.generate(t),
        FeedEvent::Pushed(t, ok) => v.pushed(t, ok),
    }
}

/// Whether event `e` makes the feeder hand out a chunk from state `v`.
pub open spec fn emits(v: FeederView, e: FeedEvent) -> bool {
    e matches FeedEvent::Activate(t) && v.task == Some(t) && chunk_fits(v)
}

/// The state after a sequence of events.
pub open spec fn run_events(v: FeederView, evs: Seq<FeedEvent>) -> FeederView
    decreases evs.len(),
{
    if evs.len() == 0 {
        v
    } else {
        run_events(apply_event(v, evs[0]), evs.drop_first())
    }
}

/// The number of chunks handed out along a sequence of events.
pub open spec fn chunks_emitted(v: FeederView, evs: Seq<FeedEvent>) -> nat
    decreases evs.len(),
{
    if evs.len() == 0 {
        0
    } else {
        (if emits(v, evs[0]) {
            1nat
        } else {
            0nat
        }) + chunks_emitted(apply_event(v, evs[0]), evs.drop_first())
    }
}

/// Repeated need-data signals schedule one task: while a task is scheduled a
/// need-data signal changes nothing, and only the scheduled task can emit.
pub proof fn lemma_single_task(v: FeederView, t: u64)
    ensures
        v.feeding() ==> v.need_data() == v,
        v.need_data().need_data() == v.need_data(),
        emits(v, FeedEvent::Activate(t)) ==> v.task == Some(t),
{
}

/// After an enough-data signal, no chunk is emitted and no task is scheduled
/// until the next need-data signal, whatever else happens in between.
pub proof fn lemma_quiet_after_enough(v: FeederView, evs: Seq<FeedEvent>)
    requires
        forall|i: int| 0 <= i < evs.len() ==> !(#[trigger] evs[i] is NeedData),
    ensures
        chunks_emitted(v.enough_data(), evs) == 0,
        run_events(v.enough_data(), evs).task is None,
    decreases evs.len(),
{
    if evs.len() > 0 {
        let w = apply_event(v.enough_data(), evs[0]);
        assert(!(evs[0] is NeedData));
        assert(w == v.enough_data().enough_data());
        let rest = evs.drop_first();
        assert forall|i: int| 0 <= i < rest.len() implies !(#[trigger] rest[i] is NeedData) by {
            assert(rest[i] == evs[i + 1]);
        }
        lemma_quiet_after_enough(v.enough_data(), rest);
    }
}

/// A push producer under backpressure. It schedules at most one generation
/// task at a time, and stamps each chunk from a running sample counter.
pub struct Feeder {
    rate: u64,
    chunk: u64,
    samples: u64,
    task: Option<u64>,
    next_task: u64,
}

impl View for Feeder {
    type V = FeederView;

    closed spec fn view(&self) -> FeederView {
        FeederView {
            rate: self.rate as nat,
            chunk: self.chunk as nat,
            samples: self.samples as nat,
            task: self.task,
            next_task: self.next_task,
        }
    }
}

impl Feeder {
    pub open spec fn wf(&self) -> bool {
        self@.rate > 0
    }

    /// A feeder of `chunk_samples` samples per chunk at `sample_rate` samples
    /// per second, not feeding yet; None when the rate is zero.
    pub fn new(sample_rate: u32, chunk_samples: u64) -> (r: Option<Feeder>)
        ensures
            sample_rate == 0 ==> r is None,
            sample_rate > 0 ==> (r matches Some(f) && f.wf() && f@ == (FeederView {
                rate: sample_rate as nat,
                chunk: chunk_samples as nat,
                samples: 0,
                task: None,
                next_task: 0,
            })),
    {
        if sample_rate == 0 {
            None
        } else {
            Some(Feeder { rate: sample_rate as u64, chunk: chunk_samples, samples: 0, task: None, next_task: 0 })
        }
    }

    /// Samples generated so far.
    pub fn num_samples(&self) -> (r: u64)
        ensures
            r as nat == self@.samples,
    {
        self.samples
    }

    pub fn is_feeding(&self) -> (r: bool)
        ensures
            r == self@.feeding(),
    {
        self.task.is_some()
    }

    /// The scheduled generation task, if any.
    pub fn scheduled_task(&self) -> (r: Option<u64>)
        ensures
            r == self@.task,
    {
        self.task
    }

    /// Handles a need-data signal. Returns the id of a task to schedule, or
    /// None when a task is already scheduled.
    pub fn on_need_data(&mut self) -> (r: Option<u64>)
        requires
            old(self).wf(),
        ensures
            final(self).wf(),
            final(self)@ == old(self)@.need_data(),
            old(self)@.feeding() ==> r is None,
            !old(self)@.feeding() ==> r == Some(old(self)@.next_task),
    {
        if self.task.is_some() {
            None
        } else {
            let id = self.next_task;
            self.task = Some(id);
            self.next_task = if id < u64::MAX {
                id + 1
            } else {
                0
            };
            Some(id)
        }
    }

    /// Handles an enough-data signal. Returns the task to cancel, if one was
    /// scheduled; with none scheduled this changes nothing.
    pub fn on_enough_data(&mut self) -> (r: Option<u64>)
        requires
            old(self).wf(),
        ensures
            final(self).wf(),
            final(self)@ == old(self)@.enough_data(),
            r == old(self)@.task,
    {
        let r = self.task;
        self.task = None;
        r
    }

    /// One activation of generation task `task`: stamps the next chunk and
    /// advances the sample counter. A task that is not the scheduled one
    /// generates nothing.
    pub fn generate(&mut self, task: u64) -> (r: Generated)
        requires
            old(self).wf(),
        ensures
            final(self).wf(),
            final(self)@ == old(self)@.generate(task),
            old(self)@.task != Some(task) ==> r == Generated::Idle,
            old(self)@.task == Some(task) && chunk_fits(old(self)@) ==> r == Generated::Data(
                chunk_at(old(self)@),
            ),
            old(self)@.task == Some(task) && !chunk_fits(old(self)@) ==> r
                == Generated::Exhausted,
    {
        if self.task != Some(task) {
            return Generated::Idle;
        }
        if self.samples > u64::MAX - self.chunk {
            self.task = None;
            return Generated::Exhausted;
        }
        let end = self.samples + self.chunk;
        match samples_to_nanos(end, self.rate) {
            Some(end_pts) => {
                proof {
                    lemma_nanos_monotone(self.samples as nat, end as nat, self.rate as nat);
                }
                let pts = match samples_to_nanos(self.samples, self.rate) {
                    Some(p) => p,
                    None => 0,
                };
                let c = Chunk {
                    first_sample: self.samples,
                    samples: self.chunk,
                    pts,
                    duration: end_pts - pts,
                };
                self.samples = end;
                Generated::Data(c)
            },
            None => {
                self.task = None;
                Generated::Exhausted
            },
        }
    }

    /// Records whether task `task`'s chunk was accepted downstream, and says
    /// whether the task runs again. A rejected push stops feeding.
    pub fn on_pushed(&mut self, task: u64, ok: bool) -> (r: bool)
        requires
            old(self).wf(),
        ensures
            final(self).wf(),
            final(self)@ == old(self)@.pushed(task, ok),
            r == (ok && old(self)@.task == Some(task)),
    {
        if self.task == Some(task) {
            if !ok {
                self.task = None;
            }
            ok
        } else {
            false
        }
    }
}

/// A pull consumer: takes exactly one sample each time one is announced.
pub struct Drain {
    received: u64,
}

/// What the drain reports back for each announced sample.
#[derive(Clone, Copy, Debug, PartialEq, Eq, Structural)]
pub enum DrainStatus {
    /// The sample was consumed; the framework may release its buffer.
    Consumed,
}

impl Drain {
    pub closed spec fn spec_received(&self) -> nat {
        self.received as nat
    }

    pub fn new() -> (r: Drain)
        ensures
            r.spec_received() == 0,
    {
        Drain { received: 0 }
    }

    /// Samples pulled so far (saturating at the largest `u64`).
    pub fn received(&self) -> (r: u64)
        ensures
            r as nat == self.spec_received(),
    {
        self.received
    }

    /// Handles one new-sample announcement, after the caller pulled exactly
    /// one sample; `pulled` says whether that pull returned one.
    pub fn on_new_sample(&mut self, pulled: bool) -> (r: DrainStatus)
        ensures
            r == DrainStatus::Consumed,
            pulled && old(self).spec_received() < u64::MAX ==> final(self).spec_received()
                == old(self).spec_received() + 1,
            !pulled || old(self).spec_received() == u64::MAX ==> final(self).spec_received()
                == old(self).spec_received(),
    {
        if pulled && self.received < u64::MAX {
            self.received = self.received + 1;
        }
        DrainStatus::Consumed
    }
}

} // verus!
