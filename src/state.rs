use vstd::prelude::*;

verus! {

/// The lifecycle states of a graph, ordered Unset < Ready < Paused < Active.
#[derive(Clone, Copy, Debug, PartialEq, Eq, Structural)]
pub enum LifecycleState {
    Unset,
    Ready,
    Paused,
    Active,
}

impl LifecycleState {
    /// Position of the state in the total order.
    pub open spec fn rank(self) -> nat {
        match self {
            LifecycleState::Unset => 0,
            LifecycleState::Ready => 1,
            LifecycleState::Paused => 2,
            LifecycleState::Active => 3,
        }
    }

    /// The state of a given rank (ranks above 3 saturate at Active).
    pub open spec fn of_rank(r: nat) -> LifecycleState {
        if r == 0 {
            LifecycleState::Unset
        } else if r == 1 {
            LifecycleState::Ready
        } else if r == 2 {
            LifecycleState::Paused
        } else {
            LifecycleState::Active
        }
    }

    pub fn level(&self) -> (r: u8)
        ensures
            r as nat == self.rank(),
    {
        match self {
            LifecycleState::Unset => 0,
            LifecycleState::Ready => 1,
            LifecycleState::Paused => 2,
            LifecycleState::Active => 3,
        }
    }

    pub fn from_level(level: u8) -> (r: Option<LifecycleState>)
        ensures
            level <= 3 ==> r == Some(LifecycleState::of_rank(level as nat)),
            level > 3 ==> r is None,
    {
        match level {
            0 => Some(LifecycleState::Unset),
            1 => Some(LifecycleState::Ready),
            2 => Some(LifecycleState::Paused),
            3 => Some(LifecycleState::Active),
            _ => None,
        }
    }

    /// "Is at least" comparison in the lifecycle order.
    pub fn is_at_least(&self, other: &LifecycleState) -> (r: bool)
        ensures
            r == (self.rank() >= other.rank()),
    {
        self.level() >= other.level()
    }
}

/// One step of the state machine from `cur` toward `target`: teardown goes
/// straight to Unset; every other move changes the rank by exactly one.
pub open spec fn step_toward(cur: LifecycleState, target: LifecycleState) -> LifecycleState {
    if target == LifecycleState::Unset {
        LifecycleState::Unset
    } else if cur.rank() < target.rank() {
        LifecycleState::of_rank(cur.rank() + 1)
    } else if cur.rank() > target.rank() {
        LifecycleState::of_rank((cur.rank() - 1) as nat)
    } else {
        cur
    }
}

/// The states passed through, in order, when moving from `cur` to `target`.
pub open spec fn path_between(cur: LifecycleState, target: LifecycleState) -> Seq<LifecycleState>
    decreases (if cur.rank() >= target.rank() { cur.rank() - target.rank() } else { target.rank() - cur.rank() }),
{
    if cur == target {
        Seq::empty()
    } else if target == LifecycleState::Unset {
        seq![LifecycleState::Unset]
    } else {
        let next = step_toward(cur, target);
        seq![next] + path_between(next, target)
    }
}

/// Each step toward a target other than Unset moves exactly one rank toward
/// it, so no state of the order can be skipped.
pub proof fn lemma_step_adjacent(cur: LifecycleState, target: LifecycleState)
    requires
        target != LifecycleState::Unset,
        cur != target,
    ensures
        cur.rank() < target.rank() ==> step_toward(cur, target).rank() == cur.rank() + 1,
        cur.rank() > target.rank() ==> step_toward(cur, target).rank() + 1 == cur.rank(),
{
}

/// Moving up from `cur` to `target` passes through every state in between,
/// in increasing order and without repetition.
pub proof fn lemma_ascent_in_order(cur: LifecycleState, target: LifecycleState)
    requires
        cur.rank() < target.rank(),
    ensures
        path_between(cur, target).len() == target.rank() - cur.rank(),
        forall|i: int|
            0 <= i < path_between(cur, target).len() ==> (#[trigger] path_between(
                cur,
                target,
            )[i]).rank() == cur.rank() + i + 1,
    decreases target.rank() - cur.rank(),
{
    let next = step_toward(cur, target);
    lemma_step_adjacent(cur, target);
    if next != target {
        lemma_ascent_in_order(next, target);
    }
    assert(path_between(cur, target) == seq![next] + path_between(next, target));
}

/// Starting a graph from Unset, Active is reached only after Ready and then
/// Paused; a teardown from any other state goes straight to Unset.
pub proof fn lemma_start_and_teardown(s: LifecycleState)
    ensures
        path_between(LifecycleState::Unset, LifecycleState::Active) == seq![
            LifecycleState::Ready,
            LifecycleState::Paused,
            LifecycleState::Active,
        ],
        s != LifecycleState::Unset ==> path_between(s, LifecycleState::Unset) == seq![
            LifecycleState::Unset,
        ],
{
    lemma_ascent_in_order(LifecycleState::Unset, LifecycleState::Active);
    let p = path_between(LifecycleState::Unset, LifecycleState::Active);
    assert(p[0].rank() == 1 && p[1].rank() == 2 && p[2].rank() == 3);
    assert(p =~= seq![LifecycleState::Ready, LifecycleState::Paused, LifecycleState::Active]);
}

/// The first step to take from `cur` toward `target`.
pub fn next_step(cur: LifecycleState, target: LifecycleState) -> (r: LifecycleState)
    ensures
        r == step_toward(cur, target),
{
    if target == LifecycleState::Unset {
        LifecycleState::Unset
    } else {
        let c = cur.level();
        let t = target.level();
        if c < t {
            match LifecycleState::from_level(c + 1) {
                Some(s) => s,
                None => cur,
            }
        } else if c > t {
            match LifecycleState::from_level(c - 1) {
                Some(s) => s,
                None => cur,
            }
        } else {
            cur
        }
    }
}

/// Every state passed through on the way from `cur` to `target`, in order.
pub fn transition_path(cur: LifecycleState, target: LifecycleState) -> (r: Vec<LifecycleState>)
    ensures
        r@ == path_between(cur, target),
{
    let mut out: Vec<LifecycleState> = Vec::new();
    let mut at = cur;
    while at != target
        invariant
            out@ + path_between(at, target) == path_between(cur, target),
        decreases (if at.rank() >= target.rank() { at.rank() - target.rank() } else { target.rank() - at.rank() }),
    {
        let next = next_step(at, target);
        proof {
            if target != LifecycleState::Unset {
                assert(path_between(at, target) == seq![next] + path_between(next, target));
            } else {
                assert(path_between(next, target) == Seq::<LifecycleState>::empty());
                assert(path_between(at, target) == seq![next] + path_between(next, target));
            }
        }
        out.push(next);
        assert(out@ + path_between(next, target) =~= path_between(cur, target));
        at = next;
    }
    assert(out@ =~= out@ + path_between(at, target));
    out
}

/// How the framework answered one state-change request.
#[derive(Clone, Copy, Debug, PartialEq, Eq, Structural)]
pub enum StepOutcome {
    /// The step is complete.
    Success,
    /// The step is complete, but the graph is live and will not pre-roll.
    NoPreroll,
    /// The step is under way; a state-changed report will follow.
    Async,
    /// The step failed; the actual state has to be queried again.
    Failure,
}

/// Tracks the lifecycle of one graph: where it is, where it was asked to go,
/// and which step is outstanding with the framework.
pub struct Lifecycle {
    current: LifecycleState,
    target: LifecycleState,
    issued: Option<LifecycleState>,
    pending: bool,
    known: bool,
    live: bool,
}

impl Lifecycle {
    /// An issued step is a teardown or moves one rank from the current state.
    pub open spec fn wf(&self) -> bool {
        &&& self.spec_issued() matches Some(s) ==> s == LifecycleState::Unset || s.rank() + 1
            == self.spec_current().rank() || self.spec_current().rank() + 1 == s.rank()
        &&& self.spec_pending() ==> self.spec_issued() is Some
    }

    pub closed spec fn spec_current(&self) -> LifecycleState {
        self.current
    }

    pub closed spec fn spec_target(&self) -> LifecycleState {
        self.target
    }

    pub closed spec fn spec_issued(&self) -> Option<LifecycleState> {
        self.issued
    }

    pub closed spec fn spec_pending(&self) -> bool {
        self.pending
    }

    pub closed spec fn spec_known(&self) -> bool {
        self.known
    }

    pub closed spec fn spec_live(&self) -> bool {
        self.live
    }

    pub fn new() -> (r: Lifecycle)
        ensures
            r.wf(),
            r.spec_current() == LifecycleState::Unset,
            r.spec_target() == LifecycleState::Unset,
            r.spec_issued() is None,
            !r.spec_pending(),
            r.spec_known(),
            !r.spec_live(),
    {
        Lifecycle {
            current: LifecycleState::Unset,
            target: LifecycleState::Unset,
            issued: None,
            pending: false,
            known: true,
            live: false,
        }
    }

    pub fn current(&self) -> (r: LifecycleState)
        ensures
            r == self.spec_current(),
    {
        self.current
    }

    pub fn target(&self) -> (r: LifecycleState)
        ensures
            r == self.spec_target(),
    {
        self.target
    }

    /// True while a step waits for the framework's state-changed report.
    pub fn is_pending(&self) -> (r: bool)
        ensures
            r == self.spec_pending(),
    {
        self.pending
    }

    /// False after a failed step, until the actual state is observed again.
    pub fn is_known(&self) -> (r: bool)
        ensures
            r == self.spec_known(),
    {
        self.known
    }

    /// True once a step toward Active reported that the graph is live.
    pub fn is_live(&self) -> (r: bool)
        ensures
            r == self.spec_live(),
    {
        self.live
    }

    /// Issues the step toward the target, unless one is outstanding or the
    /// target is reached.
    fn issue(&mut self) -> (r: Option<LifecycleState>)
        requires
            !old(self).spec_pending(),
        ensures
            final(self).wf(),
            final(self).spec_current() == old(self).spec_current(),
            final(self).spec_target() == old(self).spec_target(),
            final(self).spec_pending() == old(self).spec_pending(),
            final(self).spec_known() == old(self).spec_known(),
            final(self).spec_live() == old(self).spec_live(),
            old(self).spec_current() == old(self).spec_target() ==> r is None,
            old(self).spec_current() != old(self).spec_target() ==> r == Some(
                step_toward(old(self).spec_current(), old(self).spec_target()),
            ),
            final(self).spec_issued() == r,
    {
        if self.current == self.target {
            self.issued = None;
            None
        } else {
            let s = next_step(self.current, self.target);
            proof {
                if self.target != LifecycleState::Unset {
                    lemma_step_adjacent(self.current, self.target);
                }
            }
            self.issued = Some(s);
            Some(s)
        }
    }

    /// Asks for a new target state. A teardown (target Unset) takes effect at
    /// once from any state and always succeeds; any other target yields the
    /// first step to hand to the framework, unless a step is outstanding.
    pub fn request(&mut self, target: LifecycleState) -> (r: Option<LifecycleState>)
        requires
            old(self).wf(),
        ensures
            final(self).wf(),
            final(self).spec_target() == target,
            final(self).spec_live() == old(self).spec_live(),
            target == LifecycleState::Unset ==> {
                &&& r == Some(LifecycleState::Unset)
                &&& final(self).spec_current() == LifecycleState::Unset
                &&& final(self).spec_issued() is None
                &&& !final(self).spec_pending()
                &&& final(self).spec_known()
            },
            target != LifecycleState::Unset ==> {
                &&& final(self).spec_current() == old(self).spec_current()
                &&& final(self).spec_pending() == old(self).spec_pending()
                &&& final(self).spec_known() == old(self).spec_known()
                &&& old(self).spec_pending() ==> r is None && final(self).spec_issued() == old(
                    self).spec_issued()
                &&& !old(self).spec_pending() && old(self).spec_current() == target ==> r is None
                &&& !old(self).spec_pending() && old(self).spec_current() != target ==> r == Some(
                    step_toward(old(self).spec_current(), target),
                )
                &&& !old(self).spec_pending() ==> final(self).spec_issued() == r
            },
    {
        self.target = target;
        if target == LifecycleState::Unset {
            self.current = LifecycleState::Unset;
            self.issued = None;
            self.pending = false;
            self.known = true;
            Some(LifecycleState::Unset)
        } else if self.pending {
            None
        } else {
            self.issue()
        }
    }

    /// Records the framework's answer to the issued step and yields the next
    /// step to take, if any.
    pub fn on_outcome(&mut self, outcome: StepOutcome) -> (r: Option<LifecycleState>)
        requires
            old(self).wf(),
        ensures
            final(self).wf(),
            final(self).spec_target() == old(self).spec_target(),
            old(self).spec_issued() is None ==> r is None && *final(self) == *old(self),
            old(self).spec_issued() matches Some(step) ==> {
                match outcome {
                    StepOutcome::Success | StepOutcome::NoPreroll => {
                        &&& final(self).spec_current() == step
                        &&& final(self).spec_issued() == r
                        &&& final(self).spec_known()
                        &&& !final(self).spec_pending()
                        &&& final(self).spec_live() == (old(self).spec_live() || outcome
                            == StepOutcome::NoPreroll)
                        &&& step == old(self).spec_target() ==> r is None
                        &&& step != old(self).spec_target() ==> r == Some(
                            step_toward(step, old(self).spec_target()),
                        )
                    },
                    StepOutcome::Async => {
                        &&& r is None
                        &&& final(self).spec_current() == old(self).spec_current()
                        &&& final(self).spec_issued() == old(self).spec_issued()
                        &&& final(self).spec_pending()
                        &&& final(self).spec_known() == old(self).spec_known()
                        &&& final(self).spec_live() == old(self).spec_live()
                    },
                    StepOutcome::Failure => {
                        &&& r is None
                        &&& final(self).spec_current() == old(self).spec_current()
                        &&& final(self).spec_issued() is None
                        &&& !final(self).spec_pending()
                        &&& !final(self).spec_known()
                        &&& final(self).spec_live() == old(self).spec_live()
                    },
                }
            },
    {
        match self.issued {
            None => None,
            Some(step) => match outcome {
                StepOutcome::Success | StepOutcome::NoPreroll => {
                    self.current = step;
                    self.known = true;
                    self.pending = false;
                    if outcome == StepOutcome::NoPreroll {
                        self.live = true;
                    }
                    self.issue()
                },
                StepOutcome::Async => {
                    self.pending = true;
                    None
                },
                StepOutcome::Failure => {
                    self.issued = None;
                    self.pending = false;
                    self.known = false;
                    None
                },
            },
        }
    }

    /// Records the state the graph reported (a state-changed report or a
    /// query), clearing any outstanding step, and yields the next step toward
    /// the target, if any.
    pub fn observe(&mut self, actual: LifecycleState) -> (r: Option<LifecycleState>)
        requires
            old(self).wf(),
        ensures
            final(self).wf(),
            final(self).spec_current() == actual,
            final(self).spec_target() == old(self).spec_target(),
            final(self).spec_known(),
            !final(self).spec_pending(),
            final(self).spec_live() == old(self).spec_live(),
            actual == old(self).spec_target() ==> r is None,
            actual != old(self).spec_target() ==> r == Some(step_toward(actual, old(self).spec_target())),
            final(self).spec_issued() == r,
    {
        self.current = actual;
        self.known = true;
        self.pending = false;
        self.issue()
    }
}

} // verus!
