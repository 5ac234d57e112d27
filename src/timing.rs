use crate::state::LifecycleState;
use vstd::prelude::*;

verus! {

/// Bits of the framework's seek flags.
pub const SEEK_FLUSH: u32 = 1;
pub const SEEK_ACCURATE: u32 = 2;
pub const SEEK_KEY_UNIT: u32 = 4;

/// Independent facets of a seek request.
#[derive(Clone, Copy, Debug, PartialEq, Eq, Structural)]
pub struct SeekFlags {
    /// Discard buffered data before seeking.
    pub flush: bool,
    /// Snap to the nearest keyframe.
    pub key_unit: bool,
    /// Prefer the exact position over the nearest index entry.
    pub accurate: bool,
}

pub open spec fn flag_bits(f: SeekFlags) -> u32 {
    ((if f.flush { 1u32 } else { 0u32 }) + (if f.accurate { 2u32 } else { 0u32 }) + (if f.key_unit {
        4u32
    } else {
        0u32
    })) as u32
}

impl SeekFlags {
    /// The facets combined into the framework's flag word.
    pub fn bits(&self) -> (r: u32)
        ensures
            r == flag_bits(*self),
    {
        let mut r: u32 = 0;
        if self.flush {
            r = r + SEEK_FLUSH;
        }
        if self.accurate {
            r = r + SEEK_ACCURATE;
        }
        if self.key_unit {
            r = r + SEEK_KEY_UNIT;
        }
        r
    }

    /// The facets held by a flag word; other bits are ignored.
    pub fn from_bits(bits: u32) -> (r: SeekFlags)
        ensures
            r.flush == (bits & 1 != 0),
            r.accurate == (bits & 2 != 0),
            r.key_unit == (bits & 4 != 0),
    {
        SeekFlags {
            flush: bits & SEEK_FLUSH != 0,
            accurate: bits & SEEK_ACCURATE != 0,
            key_unit: bits & SEEK_KEY_UNIT != 0,
        }
    }
}

/// The facets are independent: each one survives the round trip through the
/// flag word whatever the others are.
pub proof fn lemma_flags_round_trip(f: SeekFlags)
    ensures
        (flag_bits(f) & 1 != 0) == f.flush,
        (flag_bits(f) & 2 != 0) == f.accurate,
        (flag_bits(f) & 4 != 0) == f.key_unit,
{
    let b = flag_bits(f);
    assert(b == 0 || b == 1 || b == 2 || b == 3 || b == 4 || b == 5 || b == 6 || b == 7);
    assert((0u32 & 1) == 0 && (0u32 & 2) == 0 && (0u32 & 4) == 0) by (bit_vector);
    assert((1u32 & 1) != 0 && (1u32 & 2) == 0 && (1u32 & 4) == 0) by (bit_vector);
    assert((2u32 & 1) == 0 && (2u32 & 2) != 0 && (2u32 & 4) == 0) by (bit_vector);
    assert((3u32 & 1) != 0 && (3u32 & 2) != 0 && (3u32 & 4) == 0) by (bit_vector);
    assert((4u32 & 1) == 0 && (4u32 & 2) == 0 && (4u32 & 4) != 0) by (bit_vector);
    assert((5u32 & 1) != 0 && (5u32 & 2) == 0 && (5u32 & 4) != 0) by (bit_vector);
    assert((6u32 & 1) == 0 && (6u32 & 2) != 0 && (6u32 & 4) != 0) by (bit_vector);
    assert((7u32 & 1) != 0 && (7u32 & 2) != 0 && (7u32 & 4) != 0) by (bit_vector);
}

/// A playback rate: a power of two, `2^exponent`, played forward or in
/// reverse.
#[derive(Clone, Copy, Debug, PartialEq, Eq, Structural)]
pub struct Rate {
    pub reverse: bool,
    pub exponent: i8,
}

impl Rate {
    pub open spec fn valid(self) -> bool {
        i8::MIN <= self.exponent <= i8::MAX
    }

    pub open spec fn normal_spec() -> Rate {
        Rate { reverse: false, exponent: 0 }
    }

    /// Normal speed, forward.
    pub fn normal() -> (r: Rate)
        ensures
            r.valid(),
            r == Rate::normal_spec(),
    {
        Rate { reverse: false, exponent: 0 }
    }

    /// Twice as fast in the same direction; None when the exponent would
    /// leave the range of `i8` (a rate beyond 2^127).
    pub fn doubled(&self) -> (r: Option<Rate>)
        ensures
            self.exponent < i8::MAX ==> r == Some(
                Rate { reverse: self.reverse, exponent: (self.exponent + 1) as i8 },
            ),
            self.exponent >= i8::MAX ==> r is None,
    {
        if self.exponent < i8::MAX {
            Some(Rate { reverse: self.reverse, exponent: self.exponent + 1 })
        } else {
            None
        }
    }

    /// Half as fast in the same direction; None when the exponent would
    /// leave the range of `i8` (a rate below 2^-128).
    pub fn halved(&self) -> (r: Option<Rate>)
        ensures
            self.exponent > i8::MIN ==> r == Some(
                Rate { reverse: self.reverse, exponent: (self.exponent - 1) as i8 },
            ),
            self.exponent <= i8::MIN ==> r is None,
    {
        if self.exponent > i8::MIN {
            Some(Rate { reverse: self.reverse, exponent: self.exponent - 1 })
        } else {
            None
        }
    }

    /// The same speed in the other direction.
    pub fn reversed(&self) -> (r: Rate)
        ensures
            r == (Rate { reverse: !self.reverse, exponent: self.exponent }),
    {
        Rate { reverse: !self.reverse, exponent: self.exponent }
    }
}

/// How one end of a seek range is given.
#[derive(Clone, Copy, Debug, PartialEq, Eq, Structural)]
pub enum SeekBound {
    /// Left as it is.
    Keep,
    /// An absolute position, in nanoseconds.
    At(u64),
    /// An offset back from the end of the stream, in nanoseconds.
    FromEnd(u64),
}

/// A seek to hand to the framework.
#[derive(Clone, Copy, Debug, PartialEq, Eq, Structural)]
pub struct SeekRequest {
    pub rate: Rate,
    pub flags: SeekFlags,
    pub start: SeekBound,
    pub stop: SeekBound,
}

/// A seek to `position` at normal rate with the given flags.
pub fn seek_to(position: u64, flags: SeekFlags) -> (r: SeekRequest)
    ensures
        r == (SeekRequest {
            rate: Rate { reverse: false, exponent: 0 },
            flags,
            start: SeekBound::At(position),
            stop: SeekBound::Keep,
        }),
{
    SeekRequest { rate: Rate::normal(), flags, start: SeekBound::At(position), stop: SeekBound::Keep }
}

/// The seek that switches to `rate` at `position`: forward rates play from
/// the position to the end of the stream, reverse rates from the start of the
/// stream up to the position. Buffered data is flushed and the position is
/// kept exact.
pub open spec fn rate_seek_request(rate: Rate, position: u64) -> SeekRequest {
    SeekRequest {
        rate,
        flags: SeekFlags { flush: true, key_unit: false, accurate: true },
        start: if rate.reverse {
            SeekBound::At(0)
        } else {
            SeekBound::At(position)
        },
        stop: if rate.reverse {
            SeekBound::At(position)
        } else {
            SeekBound::FromEnd(0)
        },
    }
}

/// The seek that switches to `rate` at `position`.
pub fn rate_seek(rate: Rate, position: u64) -> (r: SeekRequest)
    ensures
        r == rate_seek_request(rate, position),
{
    let flags = SeekFlags { flush: true, key_unit: false, accurate: true };
    if rate.reverse {
        SeekRequest { rate, flags, start: SeekBound::At(0), stop: SeekBound::At(position) }
    } else {
        SeekRequest { rate, flags, start: SeekBound::At(position), stop: SeekBound::FromEnd(0) }
    }
}

/// Nanoseconds in `seconds` whole seconds, or None when they do not fit.
pub fn seconds_to_nanos(seconds: u64) -> (r: Option<u64>)
    ensures
        seconds * 1_000_000_000 <= u64::MAX ==> r == Some((seconds * 1_000_000_000) as u64),
        seconds * 1_000_000_000 > u64::MAX ==> r is None,
{
    seconds.checked_mul(1_000_000_000)
}

/// Whole seconds in `nanos` nanoseconds, rounded down.
pub fn nanos_to_seconds(nanos: u64) -> (r: u64)
    ensures
        r == nanos / 1_000_000_000,
{
    nanos / 1_000_000_000
}

/// A request to advance by a number of frames.
#[derive(Clone, Copy, Debug, PartialEq, Eq, Structural)]
pub struct StepRequest {
    pub frames: u64,
    /// The speed of the step: the rate's magnitude.
    pub exponent: i8,
    pub flush: bool,
}

/// Why a timing request was refused.
#[derive(Clone, Copy, Debug, PartialEq, Eq, Structural)]
pub enum TimingError {
    /// Stepping needs a graph that is Paused or Active.
    NotStarted,
    /// A step of no frames.
    NoFrames,
}

/// A step of `frames` frames at the magnitude of `rate`, scoped to the current
/// direction; refused unless the graph is Paused or Active.
pub fn plan_step(state: LifecycleState, frames: u64, rate: Rate) -> (r: Result<
    StepRequest,
    TimingError,
>)
    ensures
        state.rank() < 2 ==> r == Err::<StepRequest, TimingError>(TimingError::NotStarted),
        state.rank() >= 2 && frames == 0 ==> r == Err::<StepRequest, TimingError>(
            TimingError::NoFrames,
        ),
        state.rank() >= 2 && frames > 0 ==> r == Ok::<StepRequest, TimingError>(
            StepRequest { frames, exponent: rate.exponent, flush: true },
        ),
{
    if !state.is_at_least(&LifecycleState::Paused) {
        Err(TimingError::NotStarted)
    } else if frames == 0 {
        Err(TimingError::NoFrames)
    } else {
        Ok(StepRequest { frames, exponent: rate.exponent, flush: true })
    }
}

/// Pauses the graph while a buffer fills and resumes it once the level
/// reaches the threshold, acting only on the edges between the two.
pub struct BufferingPolicy {
    threshold: u8,
    live: bool,
    holding: bool,
}

impl BufferingPolicy {
    pub closed spec fn spec_threshold(&self) -> u8 {
        self.threshold
    }

    pub closed spec fn spec_live(&self) -> bool {
        self.live
    }

    /// True while the policy holds the graph paused for buffering.
    pub closed spec fn spec_holding(&self) -> bool {
        self.holding
    }

    /// A policy with the given threshold in percent. A live graph does not
    /// pre-roll and is never paused for buffering.
    pub fn new(threshold: u8, live: bool) -> (r: BufferingPolicy)
        ensures
            r.spec_threshold() == threshold,
            r.spec_live() == live,
            !r.spec_holding(),
    {
        BufferingPolicy { threshold, live, holding: false }
    }

    pub fn is_holding(&self) -> (r: bool)
        ensures
            r == self.spec_holding(),
    {
        self.holding
    }

    /// Marks the graph as live (or not), as the framework reported when it
    /// was started.
    pub fn set_live(&mut self, live: bool)
        ensures
            final(self).spec_live() == live,
            final(self).spec_threshold() == old(self).spec_threshold(),
            final(self).spec_holding() == old(self).spec_holding(),
    {
        self.live = live;
    }

    /// Handles a buffering level. Returns the state to force, if any: Paused
    /// when the level first drops below the threshold, Active when it first
    /// climbs back to it.
    pub fn on_level(&mut self, percent: u8) -> (r: Option<LifecycleState>)
        ensures
            final(self).spec_threshold() == old(self).spec_threshold(),
            final(self).spec_live() == old(self).spec_live(),
            old(self).spec_live() ==> r is None && final(self).spec_holding() == old(self).spec_holding(),
            !old(self).spec_live() ==> final(self).spec_holding() == (percent < old(self).spec_threshold()),
            !old(self).spec_live() && percent < old(self).spec_threshold() && !old(self).spec_holding() ==> r == Some(LifecycleState::Paused),
            !old(self).spec_live() && percent >= old(self).spec_threshold() && old(self).spec_holding() ==> r == Some(LifecycleState::Active),
            !old(self).spec_live() && (percent < old(self).spec_threshold()) == old(self).spec_holding() ==> r is None,
    {
        if self.live {
            return None;
        }
        let low = percent < self.threshold;
        if low && !self.holding {
            self.holding = true;
            Some(LifecycleState::Paused)
        } else if !low && self.holding {
            self.holding = false;
            Some(LifecycleState::Active)
        } else {
            None
        }
    }
}

} // verus!
