use crate::bus::{Bus, Message, MessageBody, Origin};
use crate::state::{Lifecycle, LifecycleState};
use crate::text::same_text;
use crate::timing::BufferingPolicy;
use vstd::prelude::*;

verus! {

/// What the caller has to do after a message was handled.
#[derive(Clone, Copy, Debug, PartialEq, Eq, Structural)]
pub enum Reaction {
    /// Nothing; keep draining.
    Continue,
    /// Move the graph to this state and keep draining.
    SetState(LifecycleState),
    /// Move the graph to this state and stop draining.
    Stop(LifecycleState),
    /// The graph started playing: ask the framework whether it can seek.
    QuerySeeking,
    /// The clock was lost: pause and resume the graph to pick a new one.
    Reclock,
    /// Run the handler registered under this index for an application tag.
    Handler(usize),
}

impl Reaction {
    /// Whether the message loop (or bus watch) goes on after this reaction.
    pub fn keeps_running(&self) -> (r: bool)
        ensures
            r == !(*self is Stop),
    {
        !matches!(self, Reaction::Stop(_))
    }
}

/// The reaction the dispatcher owes to a message of each kind; None for the
/// kinds that the buffering policy and the tag table decide.
pub open spec fn reaction_to(body: MessageBody, origin: Origin) -> Option<
    Reaction,
> {
    match body {
        MessageBody::Error { .. } => Some(Reaction::Stop(LifecycleState::Unset)),
        MessageBody::EndOfStream => Some(Reaction::Stop(LifecycleState::Ready)),
        MessageBody::StateChanged { to, .. } => if origin == Origin::Graph
            && to == LifecycleState::Active {
            Some(Reaction::QuerySeeking)
        } else {
            Some(Reaction::Continue)
        },
        MessageBody::DurationChanged => Some(Reaction::Continue),
        MessageBody::ClockLost => Some(Reaction::Reclock),
        MessageBody::Other => Some(Reaction::Continue),
        MessageBody::Buffering { .. } => None,
        MessageBody::Application { .. } => None,
    }
}

/// Classifies the messages of one graph and keeps the application state that
/// they drive: whether the graph plays, the cached duration, the one-time
/// seek, the buffering policy, and the handlers for application tags.
pub struct Dispatcher {
    playing: bool,
    terminated: bool,
    duration: Option<u64>,
    seek_enabled: bool,
    seek_done: bool,
    seek_after: u64,
    seek_target: u64,
    tags: Vec<String>,
    buffering: BufferingPolicy,
}

/// What to do on a poll tick while no message arrived.
#[derive(Clone, Copy, Debug, PartialEq, Eq, Structural)]
pub struct TickPlan {
    /// The cached duration is unknown: query it.
    pub query_duration: bool,
    /// Seek to this position now.
    pub seek_to: Option<u64>,
}

impl Dispatcher {
    pub closed spec fn spec_playing(&self) -> bool {
        self.playing
    }

    pub closed spec fn spec_terminated(&self) -> bool {
        self.terminated
    }

    pub closed spec fn spec_duration(&self) -> Option<u64> {
        self.duration
    }

    pub closed spec fn spec_seek_enabled(&self) -> bool {
        self.seek_enabled
    }

    pub closed spec fn spec_seek_done(&self) -> bool {
        self.seek_done
    }

    pub closed spec fn spec_seek_after(&self) -> u64 {
        self.seek_after
    }

    pub closed spec fn spec_seek_target(&self) -> u64 {
        self.seek_target
    }

    pub closed spec fn spec_tags(&self) -> Seq<String> {
        self.tags@
    }

    pub closed spec fn spec_buffering(&self) -> BufferingPolicy {
        self.buffering
    }

    /// A dispatcher whose one-time seek jumps to `seek_target` once the
    /// position passes `seek_after` (both in nanoseconds), and whose
    /// buffering policy is `buffering`.
    pub fn new(seek_after: u64, seek_target: u64, buffering: BufferingPolicy) -> (r: Dispatcher)
        ensures
            !r.spec_playing(),
            !r.spec_terminated(),
            r.spec_duration() is None,
            !r.spec_seek_enabled(),
            !r.spec_seek_done(),
            r.spec_seek_after() == seek_after,
            r.spec_seek_target() == seek_target,
            r.spec_tags().len() == 0,
            r.spec_buffering() == buffering,
    {
        Dispatcher {
            playing: false,
            terminated: false,
            duration: None,
            seek_enabled: false,
            seek_done: false,
            seek_after,
            seek_target,
            tags: Vec::new(),
            buffering,
        }
    }

    /// Registers a handler for application messages tagged `tag`; its index
    /// comes back in Reaction::Handler.
    pub fn register_tag(&mut self, tag: String) -> (r: usize)
        ensures
            r == old(self).spec_tags().len(),
            final(self).spec_tags() == old(self).spec_tags().push(tag),
            final(self).spec_playing() == old(self).spec_playing(),
            final(self).spec_terminated() == old(self).spec_terminated(),
            final(self).spec_duration() == old(self).spec_duration(),
            final(self).spec_buffering() == old(self).spec_buffering(),
    {
        let r = self.tags.len();
        self.tags.push(tag);
        r
    }

    pub fn is_playing(&self) -> (r: bool)
        ensures
            r == self.spec_playing(),
    {
        self.playing
    }

    /// True once an error or the end of the stream was handled.
    pub fn is_terminated(&self) -> (r: bool)
        ensures
            r == self.spec_terminated(),
    {
        self.terminated
    }

    /// The cached duration; None until it is stored and after a
    /// duration-changed message.
    pub fn duration(&self) -> (r: Option<u64>)
        ensures
            r == self.spec_duration(),
    {
        self.duration
    }

    /// Stores the duration that the framework reported.
    pub fn store_duration(&mut self, duration: Option<u64>)
        ensures
            final(self).spec_duration() == duration,
            final(self).spec_playing() == old(self).spec_playing(),
            final(self).spec_terminated() == old(self).spec_terminated(),
            final(self).spec_seek_enabled() == old(self).spec_seek_enabled(),
            final(self).spec_seek_done() == old(self).spec_seek_done(),
            final(self).spec_tags() == old(self).spec_tags(),
            final(self).spec_buffering() == old(self).spec_buffering(),
    {
        self.duration = duration;
    }

    /// Records the framework's answer on whether the stream can seek.
    pub fn store_seekable(&mut self, seekable: bool)
        ensures
            final(self).spec_seek_enabled() == seekable,
            final(self).spec_playing() == old(self).spec_playing(),
            final(self).spec_terminated() == old(self).spec_terminated(),
            final(self).spec_duration() == old(self).spec_duration(),
            final(self).spec_seek_done() == old(self).spec_seek_done(),
            final(self).spec_tags() == old(self).spec_tags(),
            final(self).spec_buffering() == old(self).spec_buffering(),
    {
        self.seek_enabled = seekable;
    }

    /// Marks the graph as live (it reported that it does not pre-roll), which
    /// turns the buffering policy off.
    pub fn set_live(&mut self, live: bool)
        ensures
            final(self).spec_buffering().spec_live() == live,
            final(self).spec_buffering().spec_threshold() == old(self).spec_buffering().spec_threshold(),
            final(self).spec_buffering().spec_holding() == old(self).spec_buffering().spec_holding(),
            final(self).spec_playing() == old(self).spec_playing(),
            final(self).spec_terminated() == old(self).spec_terminated(),
            final(self).spec_duration() == old(self).spec_duration(),
            final(self).spec_tags() == old(self).spec_tags(),
    {
        self.buffering.set_live(live);
    }

    /// The index of the handler registered for `tag`, if any.
    fn find_tag(&self, tag: &str) -> (r: Option<usize>)
        ensures
            r matches Some(i) ==> i < self.spec_tags().len() && self.spec_tags()[i as int]@
                == tag@ && forall|k: int| 0 <= k < i ==> (#[trigger] self.spec_tags()[k])@ != tag@,
            r is None ==> forall|k: int|
                0 <= k < self.spec_tags().len() ==> (#[trigger] self.spec_tags()[k])@ != tag@,
    {
        let mut i: usize = 0;
        while i < self.tags.len()
            invariant
                i <= self.tags@.len(),
                forall|k: int| 0 <= k < i ==> (#[trigger] self.tags@[k])@ != tag@,
            decreases self.tags@.len() - i,
        {
            if same_text(self.tags[i].as_str(), tag) {
                return Some(i);
            }
            i = i + 1;
        }
        None
    }

    /// Classifies one message and updates the application state:
    /// - an error or the end of the stream terminates the run, tearing the
    ///   graph down (Unset) after an error and stopping it (Ready) at the end;
    /// - a state change counts only when the graph itself reports it;
    /// - a duration change drops the cached duration;
    /// - a buffering level goes to the buffering policy;
    /// - an application message goes to the first handler of its tag.
    pub fn handle(&mut self, msg: &Message) -> (r: Reaction)
        ensures
            final(self).spec_tags() == old(self).spec_tags(),
            final(self).spec_seek_enabled() == old(self).spec_seek_enabled(),
            final(self).spec_seek_done() == old(self).spec_seek_done(),
            final(self).spec_seek_after() == old(self).spec_seek_after(),
            final(self).spec_seek_target() == old(self).spec_seek_target(),
            reaction_to(msg.body, msg.origin) matches Some(x) ==> r == x,
            final(self).spec_terminated() == (old(self).spec_terminated()
                || msg.body is Error || msg.body is EndOfStream),
            msg.body is DurationChanged ==> final(self).spec_duration() is None,
            !(msg.body is DurationChanged) ==> final(self).spec_duration() == old(self).spec_duration(),
            msg.body matches MessageBody::StateChanged { to, .. } ==> (msg.origin == Origin::Graph
                ==> final(self).spec_playing() == (to == LifecycleState::Active)),
            !(msg.body is StateChanged && msg.origin == Origin::Graph) ==> final(self).spec_playing() == old(self).spec_playing(),
            msg.body matches MessageBody::Buffering { percent } ==> {
                let b = old(self).spec_buffering();
                &&& final(self).spec_buffering().spec_threshold() == b.spec_threshold()
                &&& final(self).spec_buffering().spec_live() == b.spec_live()
                &&& b.spec_live() ==> r == Reaction::Continue
                    && final(self).spec_buffering().spec_holding() == b.spec_holding()
                &&& !b.spec_live() ==> final(self).spec_buffering().spec_holding() == (percent
                    < b.spec_threshold())
                &&& !b.spec_live() && percent < b.spec_threshold() && !b.spec_holding() ==> r
                    == Reaction::SetState(LifecycleState::Paused)
                &&& !b.spec_live() && percent >= b.spec_threshold() && b.spec_holding() ==> r
                    == Reaction::SetState(LifecycleState::Active)
                &&& !b.spec_live() && (percent < b.spec_threshold()) == b.spec_holding() ==> r
                    == Reaction::Continue
            },
            !(msg.body is Buffering) ==> final(self).spec_buffering() == old(self).spec_buffering(),
            msg.body matches MessageBody::Application { tag } ==> {
                &&& (exists|i: int|
                    0 <= i < old(self).spec_tags().len() && (#[trigger] old(self).spec_tags()[i])@ == tag@) ==> (r matches Reaction::Handler(i) && i < old(self).spec_tags().len() && old(self).spec_tags()[i as int]@ == tag@ && forall|k: int|
                    0 <= k < i ==> (#[trigger] old(self).spec_tags()[k])@ != tag@)
                &&& !(exists|i: int|
                    0 <= i < old(self).spec_tags().len() && (#[trigger] old(self).spec_tags()[i])@ == tag@) ==> r == Reaction::Continue
            },
    {
        match &msg.body {
            MessageBody::Error { .. } => {
                self.terminated = true;
                Reaction::Stop(LifecycleState::Unset)
            },
            MessageBody::EndOfStream => {
                self.terminated = true;
                Reaction::Stop(LifecycleState::Ready)
            },
            MessageBody::StateChanged { to, .. } => {
                if msg.origin == Origin::Graph {
                    self.playing = *to == LifecycleState::Active;
                    if self.playing {
                        return Reaction::QuerySeeking;
                    }
                }
                Reaction::Continue
            },
            MessageBody::DurationChanged => {
                self.duration = None;
                Reaction::Continue
            },
            MessageBody::Buffering { percent } => match self.buffering.on_level(*percent) {
                Some(s) => Reaction::SetState(s),
                None => Reaction::Continue,
            },
            MessageBody::ClockLost => Reaction::Reclock,
            MessageBody::Application { tag } => match self.find_tag(tag.as_str()) {
                Some(i) => Reaction::Handler(i),
                None => Reaction::Continue,
            },
            MessageBody::Other => Reaction::Continue,
        }
    }

    /// Plans the periodic work of a poll tick at `position` (nanoseconds):
    /// while playing, query the duration if none is cached, and seek once to
    /// the target when the stream can seek and the position passed the mark.
    pub fn on_tick(&mut self, position: u64) -> (r: TickPlan)
        ensures
            final(self).spec_playing() == old(self).spec_playing(),
            final(self).spec_duration() == old(self).spec_duration(),
            final(self).spec_seek_enabled() == old(self).spec_seek_enabled(),
            final(self).spec_tags() == old(self).spec_tags(),
            final(self).spec_terminated() == old(self).spec_terminated(),
            final(self).spec_buffering() == old(self).spec_buffering(),
            final(self).spec_seek_after() == old(self).spec_seek_after(),
            final(self).spec_seek_target() == old(self).spec_seek_target(),
            !old(self).spec_playing() ==> r == (TickPlan { query_duration: false, seek_to: None })
                && final(self).spec_seek_done() == old(self).spec_seek_done(),
            old(self).spec_playing() ==> r.query_duration == (old(self).spec_duration() is None),
            ({
                let fire = old(self).spec_playing() && old(self).spec_seek_enabled() && !old(self).spec_seek_done() && position > old(self).spec_seek_after();
                &&& fire ==> r.seek_to == Some(old(self).spec_seek_target()) && final(self).spec_seek_done()
                &&& !fire ==> r.seek_to is None && final(self).spec_seek_done() == old(self).spec_seek_done()
            }),
    {
        if !self.playing {
            return TickPlan { query_duration: false, seek_to: None };
        }
        let query_duration = self.duration.is_none();
        if self.seek_enabled && !self.seek_done && position > self.seek_after {
            self.seek_done = true;
            TickPlan { query_duration, seek_to: Some(self.seek_target) }
        } else {
            TickPlan { query_duration, seek_to: None }
        }
    }
}

/// How a blocking run over the bus ended.
pub enum RunEnd {
    /// A message stopped the run; it is handed back for reporting.
    Stopped(Message),
    /// No message was left by the deadline.
    Drained,
}

/// Whether a message of this kind ends a run.
pub open spec fn ends_run(body: MessageBody) -> bool {
    body is Error || body is EndOfStream
}

/// The state a buffering policy forces on a level, if any.
pub open spec fn level_request(live: bool, threshold: u8, holding: bool, percent: u8) -> Option<
    LifecycleState,
> {
    if live {
        None
    } else if percent < threshold && !holding {
        Some(LifecycleState::Paused)
    } else if percent >= threshold && holding {
        Some(LifecycleState::Active)
    } else {
        None
    }
}

/// Whether a buffering policy holds the graph paused after a level.
pub open spec fn level_holding(live: bool, threshold: u8, holding: bool, percent: u8) -> bool {
    if live {
        holding
    } else {
        percent < threshold
    }
}

/// Whether the buffering policy holds the graph after handling `msgs`.
pub open spec fn holding_after(live: bool, threshold: u8, holding: bool, msgs: Seq<Message>) -> bool
    decreases msgs.len(),
{
    if msgs.len() == 0 {
        holding
    } else {
        let h = holding_after(live, threshold, holding, msgs.drop_last());
        match msgs.last().body {
            MessageBody::Buffering { percent } => level_holding(live, threshold, h, percent),
            _ => h,
        }
    }
}

/// The lifecycle target after applying, in order, every state requested by
/// the handling of `msgs`: errors tear down, the end of the stream stops at
/// Ready, a lost clock restarts playback, and buffering levels go through the
/// policy.
pub open spec fn target_after(
    live: bool,
    threshold: u8,
    holding: bool,
    target: LifecycleState,
    msgs: Seq<Message>,
) -> LifecycleState
    decreases msgs.len(),
{
    if msgs.len() == 0 {
        target
    } else {
        let h = holding_after(live, threshold, holding, msgs.drop_last());
        let t = target_after(live, threshold, holding, target, msgs.drop_last());
        match msgs.last().body {
            MessageBody::Error { .. } => LifecycleState::Unset,
            MessageBody::EndOfStream => LifecycleState::Ready,
            MessageBody::ClockLost => LifecycleState::Active,
            MessageBody::Buffering { percent } => match level_request(live, threshold, h, percent) {
                Some(s) => s,
                None => t,
            },
            _ => t,
        }
    }
}

/// Drains `bus` in delivery order up to `deadline`, handling each message and
/// applying every requested state to `life` in order, until a message stops
/// the run: the first error or end of stream posted no later than the
/// deadline. An error tears the graph down, so the run then leaves it in
/// Unset, and the dispatcher ends terminated.
pub fn run_until_stopped(
    d: &mut Dispatcher,
    bus: &mut Bus,
    life: &mut Lifecycle,
    deadline: u64,
) -> (r: RunEnd)
    requires
        old(bus).wf(),
        old(life).wf(),
    ensures
        final(bus).wf(),
        final(life).wf(),
        ({
            let q = old(bus).spec_queue();
            let b = old(d).spec_buffering();
            let t0 = old(life).spec_target();
            match r {
                RunEnd::Stopped(m) => exists|k: int|
                    #![trigger q[k]]
                    0 <= k < q.len() && m == q[k] && ends_run(m.body) && m.timestamp <= deadline
                        && (forall|j: int| 0 <= j < k ==> !ends_run(#[trigger] q[j].body))
                        && final(bus).spec_queue() == q.subrange(k + 1, q.len() as int)
                        && final(life).spec_target() == target_after(
                        b.spec_live(),
                        b.spec_threshold(),
                        b.spec_holding(),
                        t0,
                        q.subrange(0, k + 1),
                    ) && final(d).spec_terminated(),
                RunEnd::Drained => exists|k: int|
                    #![trigger q.subrange(k, q.len() as int)]
                    0 <= k <= q.len() && (forall|j: int| 0 <= j < k ==> !ends_run(#[trigger] q[j].body))
                        && final(bus).spec_queue() == q.subrange(k, q.len() as int) && !(k < q.len()
                        && q[k].timestamp <= deadline) && final(life).spec_target() == target_after(
                        b.spec_live(),
                        b.spec_threshold(),
                        b.spec_holding(),
                        t0,
                        q.subrange(0, k),
                    ) && final(d).spec_buffering().spec_holding() == holding_after(
                        b.spec_live(),
                        b.spec_threshold(),
                        b.spec_holding(),
                        q.subrange(0, k),
                    ) && final(d).spec_terminated() == old(d).spec_terminated(),
            }
        }),
        (r matches RunEnd::Stopped(m) && m.body is Error) ==> final(life).spec_current()
            == LifecycleState::Unset && final(life).spec_target() == LifecycleState::Unset,
        (r matches RunEnd::Stopped(m) && m.body is EndOfStream) ==> final(life).spec_target()
            == LifecycleState::Ready,
{
    let ghost q = bus.spec_queue();
    let ghost b = d.spec_buffering();
    let ghost t0 = life.spec_target();
    let ghost mut k: int = 0;
    assert(q.subrange(0, 0) =~= Seq::<Message>::empty());
    loop
        invariant
            bus.wf(),
            life.wf(),
            0 <= k <= q.len(),
            q == old(bus).spec_queue(),
            b == old(d).spec_buffering(),
            t0 == old(life).spec_target(),
            bus.spec_queue() == q.subrange(k, q.len() as int),
            forall|j: int| 0 <= j < k ==> !ends_run(#[trigger] q[j].body),
            d.spec_buffering().spec_live() == b.spec_live(),
            d.spec_buffering().spec_threshold() == b.spec_threshold(),
            d.spec_buffering().spec_holding() == holding_after(
                b.spec_live(),
                b.spec_threshold(),
                b.spec_holding(),
                q.subrange(0, k),
            ),
            life.spec_target() == target_after(
                b.spec_live(),
                b.spec_threshold(),
                b.spec_holding(),
                t0,
                q.subrange(0, k),
            ),
            d.spec_terminated() == old(d).spec_terminated(),
        decreases bus.spec_queue().len(),
    {
        match bus.pop_until(deadline) {
            None => {
                assert(q.subrange(k, q.len() as int) =~= bus.spec_queue());
                return RunEnd::Drained;
            },
            Some(m) => {
                assert(m == q[k]);
                let ghost prefix = q.subrange(0, k + 1);
                assert(prefix.drop_last() =~= q.subrange(0, k));
                assert(prefix.last() == m);
                let reaction = d.handle(&m);
                match reaction {
                    Reaction::Stop(s) => {
                        let _ = life.request(s);
                        assert(bus.spec_queue() =~= q.subrange(k + 1, q.len() as int));
                        return RunEnd::Stopped(m);
                    },
                    Reaction::SetState(s) => {
                        let _ = life.request(s);
                    },
                    Reaction::Reclock => {
                        let _ = life.request(LifecycleState::Paused);
                        let _ = life.request(LifecycleState::Active);
                    },
                    _ => {},
                }
                proof {
                    assert(bus.spec_queue() =~= q.subrange(k + 1, q.len() as int));
                    k = k + 1;
                }
            },
        }
    }
}

} // verus!
