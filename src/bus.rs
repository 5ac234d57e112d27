use crate::state::LifecycleState;
use vstd::prelude::*;

verus! {

/// Who posted a message: the top-level graph itself or one of its nodes.
#[derive(Clone, Copy, Debug, PartialEq, Eq, Structural)]
pub enum Origin {
    Graph,
    Node(usize),
}

/// What a message reports, by kind.
pub enum MessageBody {
    /// A failure inside the graph: a machine-readable summary and optional
    /// debug detail.
    Error { summary: String, detail: Option<String> },
    /// The graph has drained.
    EndOfStream,
    /// The poster moved from one lifecycle state to another.
    StateChanged { from: LifecycleState, to: LifecycleState },
    /// Any cached duration is stale.
    DurationChanged,
    /// The fill level of a buffer, in percent.
    Buffering { percent: u8 },
    /// The clock was lost and the graph has to be restarted on a new one.
    ClockLost,
    /// A message the application posted to itself, with its tag.
    Application { tag: String },
    /// A kind this library does not handle.
    Other,
}

/// A timestamped message. `seq` is its place in the order of posting.
pub struct Message {
    pub origin: Origin,
    pub timestamp: u64,
    pub seq: u64,
    pub body: MessageBody,
}

/// Whether `a` is delivered before `b`: by timestamp, then by order of posting.
pub open spec fn precedes(a: Message, b: Message) -> bool {
    a.timestamp < b.timestamp || (a.timestamp == b.timestamp && a.seq < b.seq)
}

/// Why a message could not be posted.
#[derive(Clone, Copy, Debug, PartialEq, Eq, Structural)]
pub enum BusError {
    /// Every sequence number has been used.
    SequenceExhausted,
}

/// An ordered message channel: messages leave in order of timestamp, and in
/// order of posting among equal timestamps.
pub struct Bus {
    queue: Vec<Message>,
    next_seq: u64,
}

impl Bus {
    pub closed spec fn spec_queue(&self) -> Seq<Message> {
        self.queue@
    }

    pub closed spec fn spec_next_seq(&self) -> u64 {
        self.next_seq
    }

    /// The queue is in delivery order and every queued message was numbered
    /// before the next one to be posted.
    pub open spec fn wf(&self) -> bool {
        &&& forall|i: int, j: int|
            0 <= i < j < self.spec_queue().len() ==> precedes(
                #[trigger] self.spec_queue()[i],
                #[trigger] self.spec_queue()[j],
            )
        &&& forall|i: int|
            0 <= i < self.spec_queue().len() ==> (#[trigger] self.spec_queue()[i]).seq
                < self.spec_next_seq()
    }

    pub fn new() -> (r: Bus)
        ensures
            r.wf(),
            r.spec_queue().len() == 0,
            r.spec_next_seq() == 0,
    {
        Bus { queue: Vec::new(), next_seq: 0 }
    }

    pub fn len(&self) -> (r: usize)
        ensures
            r == self.spec_queue().len(),
    {
        self.queue.len()
    }

    /// Posts a message. It is numbered after every earlier one and placed
    /// after every queued message whose timestamp is not later than its own.
    pub fn post(&mut self, origin: Origin, timestamp: u64, body: MessageBody) -> (r: Result<
        u64,
        BusError,
    >)
        requires
            old(self).wf(),
        ensures
            final(self).wf(),
            old(self).spec_next_seq() == u64::MAX ==> r == Err::<u64, BusError>(
                BusError::SequenceExhausted,
            ) && final(self).spec_queue() == old(self).spec_queue() && final(self).spec_next_seq()
                == old(self).spec_next_seq(),
            old(self).spec_next_seq() < u64::MAX ==> {
                let m = Message { origin, timestamp, seq: old(self).spec_next_seq(), body };
                exists|p: int|
                    0 <= p <= old(self).spec_queue().len() && final(self).spec_queue() == old(self).spec_queue().insert(p, m) && (forall|k: int|
                        0 <= k < p ==> (#[trigger] old(self).spec_queue()[k]).timestamp
                            <= timestamp) && (forall|k: int|
                        p <= k < old(self).spec_queue().len() ==> (#[trigger] old(self).spec_queue()[k]).timestamp > timestamp)
            },
            old(self).spec_next_seq() < u64::MAX ==> r == Ok::<u64, BusError>(
                old(self).spec_next_seq(),
            ) && final(self).spec_next_seq() == old(self).spec_next_seq() + 1,
    {
        if self.next_seq == u64::MAX {
            return Err(BusError::SequenceExhausted);
        }
        let seq = self.next_seq;
        let n = self.queue.len();
        let mut i: usize = 0;
        while i < n && self.queue[i].timestamp <= timestamp
            invariant
                n == self.queue@.len(),
                self.queue@ == old(self).queue@,
                i <= n,
                forall|k: int| 0 <= k < i ==> (#[trigger] self.queue@[k]).timestamp <= timestamp,
            decreases n - i,
        {
            i = i + 1;
        }
        let p: usize = i;
        proof {
            if p < n {
                assert(self.queue@[p as int].timestamp > timestamp);
            }
            assert forall|k: int| p <= k < n implies (#[trigger] old(self).queue@[k]).timestamp
                > timestamp by {
                if k > p {
                    assert(precedes(self.queue@[p as int], self.queue@[k]));
                }
            }
        }
        let ghost q0 = self.queue@;
        let ghost m = Message { origin, timestamp, seq, body };
        self.queue.insert(p, Message { origin, timestamp, seq, body });
        self.next_seq = seq + 1;
        proof {
            let q = self.queue@;
            assert(q == q0.insert(p as int, m));
            assert forall|a: int, b: int| 0 <= a < b < q.len() implies precedes(
                #[trigger] q[a],
                #[trigger] q[b],
            ) by {
                if b < p {
                    assert(q[a] == q0[a] && q[b] == q0[b]);
                } else if b == p {
                    assert(q[a] == q0[a]);
                } else if a < p {
                    assert(q[a] == q0[a] && q[b] == q0[b - 1]);
                } else if a == p {
                    assert(q[b] == q0[b - 1]);
                } else {
                    assert(q[a] == q0[a - 1] && q[b] == q0[b - 1]);
                }
            }
            assert forall|k: int| 0 <= k < q.len() implies (#[trigger] q[k]).seq
                < self.next_seq by {
                if k < p {
                    assert(q[k] == q0[k]);
                } else if k > p {
                    assert(q[k] == q0[k - 1]);
                }
            }
        }
        Ok(seq)
    }

    /// Takes the first message in delivery order, if any.
    pub fn pop(&mut self) -> (r: Option<Message>)
        requires
            old(self).wf(),
        ensures
            final(self).wf(),
            final(self).spec_next_seq() == old(self).spec_next_seq(),
            old(self).spec_queue().len() == 0 ==> r is None && final(self).spec_queue() == old(self).spec_queue(),
            old(self).spec_queue().len() > 0 ==> {
                &&& r == Some(old(self).spec_queue()[0])
                &&& final(self).spec_queue() == old(self).spec_queue().drop_first()
                &&& forall|k: int|
                    0 <= k < final(self).spec_queue().len() ==> precedes(
                        old(self).spec_queue()[0],
                        #[trigger] final(self).spec_queue()[k],
                    )
            },
    {
        if self.queue.len() == 0 {
            return None;
        }
        let m = self.queue.remove(0);
        proof {
            let q0 = old(self).queue@;
            assert forall|k: int| 0 <= k < self.queue@.len() implies precedes(
                q0[0],
                #[trigger] self.queue@[k],
            ) by {
                assert(self.queue@[k] == q0[k + 1]);
            }
            assert forall|a: int, b: int| 0 <= a < b < self.queue@.len() implies precedes(
                #[trigger] self.queue@[a],
                #[trigger] self.queue@[b],
            ) by {
                assert(self.queue@[a] == q0[a + 1] && self.queue@[b] == q0[b + 1]);
            }
            assert forall|k: int| 0 <= k < self.queue@.len() implies (
            #[trigger] self.queue@[k]).seq < self.next_seq by {
                assert(self.queue@[k] == q0[k + 1]);
            }
        }
        assert(self.queue@ =~= old(self).queue@.drop_first());
        Some(m)
    }

    /// Takes the first message if it was posted no later than `deadline`;
    /// None means that nothing arrived in time.
    pub fn pop_until(&mut self, deadline: u64) -> (r: Option<Message>)
        requires
            old(self).wf(),
        ensures
            final(self).wf(),
            final(self).spec_next_seq() == old(self).spec_next_seq(),
            old(self).spec_queue().len() > 0 && old(self).spec_queue()[0].timestamp <= deadline
                ==> r == Some(old(self).spec_queue()[0]) && final(self).spec_queue() == old(self).spec_queue().drop_first(),
            !(old(self).spec_queue().len() > 0 && old(self).spec_queue()[0].timestamp <= deadline)
                ==> r is None && final(self).spec_queue() == old(self).spec_queue(),
    {
        if self.queue.len() > 0 && self.queue[0].timestamp <= deadline {
            self.pop()
        } else {
            None
        }
    }
}

/// Messages leave the bus in order of timestamp: of two queued messages, the
/// one stamped earlier is ahead, and of two stamped alike, the one posted
/// first is ahead.
pub proof fn lemma_delivery_order(b: Bus, i: int, j: int)
    requires
        b.wf(),
        0 <= i < b.spec_queue().len(),
        0 <= j < b.spec_queue().len(),
        b.spec_queue()[i].timestamp < b.spec_queue()[j].timestamp || (b.spec_queue()[i].timestamp
            == b.spec_queue()[j].timestamp && b.spec_queue()[i].seq < b.spec_queue()[j].seq),
    ensures
        i < j,
{
    if j < i {
        assert(precedes(b.spec_queue()[j], b.spec_queue()[i]));
    }
}

} // verus!
