use crate::state::LifecycleState;
use crate::timing::{plan_step, rate_seek, rate_seek_request, Rate, SeekRequest, StepRequest};
use vstd::prelude::*;

verus! {

/// A user command for interactive playback.
#[derive(Clone, Copy, Debug, PartialEq, Eq, Structural)]
pub enum Command {
    PlayPause,
    RateUp,
    RateDown,
    Reverse,
    NextFrame,
    Quit,
}

/// The command bound to a key: `ctrl` says whether Control was held.
pub fn command_for_key(c: char, ctrl: bool) -> (r: Option<Command>)
    ensures
        ctrl ==> r == (if c == 'c' || c == 'C' {
            Some(Command::Quit)
        } else {
            None::<Command>
        }),
        !ctrl ==> r == (if c == 'p' || c == 'P' {
            Some(Command::PlayPause)
        } else if c == 's' {
            Some(Command::RateDown)
        } else if c == 'S' {
            Some(Command::RateUp)
        } else if c == 'd' || c == 'D' {
            Some(Command::Reverse)
        } else if c == 'n' || c == 'N' {
            Some(Command::NextFrame)
        } else if c == 'q' || c == 'Q' {
            Some(Command::Quit)
        } else {
            None::<Command>
        }),
{
    if ctrl {
        if c == 'c' || c == 'C' {
            Some(Command::Quit)
        } else {
            None
        }
    } else if c == 'p' || c == 'P' {
        Some(Command::PlayPause)
    } else if c == 's' {
        Some(Command::RateDown)
    } else if c == 'S' {
        Some(Command::RateUp)
    } else if c == 'd' || c == 'D' {
        Some(Command::Reverse)
    } else if c == 'n' || c == 'N' {
        Some(Command::NextFrame)
    } else if c == 'q' || c == 'Q' {
        Some(Command::Quit)
    } else {
        None
    }
}

/// What the caller has to do with the framework for a command.
#[derive(Clone, Copy, Debug, PartialEq, Eq, Structural)]
pub enum ControlAction {
    SetState(LifecycleState),
    Seek(SeekRequest),
    Step(StepRequest),
    Quit,
    Nothing,
}

/// Interactive playback: play or pause, and the rate, which changes only once
/// the framework accepted the seek that applies it.
pub struct SpeedControl {
    playing: bool,
    rate: Rate,
    pending: Option<Rate>,
}

impl SpeedControl {
    pub closed spec fn spec_playing(&self) -> bool {
        self.playing
    }

    pub closed spec fn spec_rate(&self) -> Rate {
        self.rate
    }

    /// The rate of the seek that awaits the framework's answer.
    pub closed spec fn spec_pending(&self) -> Option<Rate> {
        self.pending
    }

    /// The state the graph is kept in.
    pub open spec fn spec_state(&self) -> LifecycleState {
        if self.spec_playing() {
            LifecycleState::Active
        } else {
            LifecycleState::Paused
        }
    }

    /// Control of a graph that plays at normal rate.
    pub fn new() -> (r: SpeedControl)
        ensures
            r.spec_playing(),
            r.spec_rate() == Rate::normal_spec(),
            r.spec_pending() is None,
    {
        SpeedControl { playing: true, rate: Rate::normal(), pending: None }
    }

    pub fn rate(&self) -> (r: Rate)
        ensures
            r == self.spec_rate(),
    {
        self.rate
    }

    pub fn is_playing(&self) -> (r: bool)
        ensures
            r == self.spec_playing(),
    {
        self.playing
    }

    /// Handles a command; `position` is the graph's current position, if the
    /// framework could report it. A rate command with no position, or whose
    /// exponent would leave the range of `i8`, does nothing.
    pub fn on_command(&mut self, cmd: Command, position: Option<u64>) -> (r: ControlAction)
        ensures
            final(self).spec_rate() == old(self).spec_rate(),
            cmd == Command::PlayPause ==> {
                &&& final(self).spec_playing() == !old(self).spec_playing()
                &&& final(self).spec_pending() == old(self).spec_pending()
                &&& r == ControlAction::SetState(final(self).spec_state())
            },
            cmd != Command::PlayPause ==> final(self).spec_playing() == old(self).spec_playing(),
            cmd == Command::Quit ==> r == ControlAction::Quit && final(self).spec_pending() == old(self).spec_pending(),
            cmd == Command::NextFrame ==> r == ControlAction::Step(
                StepRequest { frames: 1, exponent: old(self).spec_rate().exponent, flush: true },
            ) && final(self).spec_pending() == old(self).spec_pending(),
            ({
                let cur = old(self).spec_rate();
                let want = if cmd == Command::RateUp {
                    if cur.exponent < i8::MAX {
                        Some(Rate { reverse: cur.reverse, exponent: (cur.exponent + 1) as i8 })
                    } else {
                        None
                    }
                } else if cmd == Command::RateDown {
                    if cur.exponent > i8::MIN {
                        Some(Rate { reverse: cur.reverse, exponent: (cur.exponent - 1) as i8 })
                    } else {
                        None
                    }
                } else {
                    Some(Rate { reverse: !cur.reverse, exponent: cur.exponent })
                };
                (cmd == Command::RateUp || cmd == Command::RateDown || cmd == Command::Reverse)
                    ==> match (want, position) {
                    (Some(w), Some(p)) => {
                        &&& final(self).spec_pending() == Some(w)
                        &&& r == ControlAction::Seek(rate_seek_request(w, p))
                    },
                    _ => r == ControlAction::Nothing && final(self).spec_pending() == old(self).spec_pending(),
                }
            }),
    {
        match cmd {
            Command::PlayPause => {
                self.playing = !self.playing;
                if self.playing {
                    ControlAction::SetState(LifecycleState::Active)
                } else {
                    ControlAction::SetState(LifecycleState::Paused)
                }
            },
            Command::Quit => ControlAction::Quit,
            Command::NextFrame => {
                let state = if self.playing {
                    LifecycleState::Active
                } else {
                    LifecycleState::Paused
                };
                match plan_step(state, 1, self.rate) {
                    Ok(step) => ControlAction::Step(step),
                    Err(_) => ControlAction::Nothing,
                }
            },
            _ => {
                let want = if cmd == Command::RateUp {
                    self.rate.doubled()
                } else if cmd == Command::RateDown {
                    self.rate.halved()
                } else {
                    Some(self.rate.reversed())
                };
                match (want, position) {
                    (Some(w), Some(p)) => {
                        self.pending = Some(w);
                        ControlAction::Seek(rate_seek(w, p))
                    },
                    _ => ControlAction::Nothing,
                }
            },
        }
    }

    /// Records the framework's answer to the pending rate seek: on success
    /// the pending rate becomes the current one.
    pub fn on_seek_result(&mut self, ok: bool)
        ensures
            final(self).spec_playing() == old(self).spec_playing(),
            final(self).spec_pending() is None,
            (ok && old(self).spec_pending() is Some) ==> final(self).spec_rate() == old(self).spec_pending()->Some_0,
            !(ok && old(self).spec_pending() is Some) ==> final(self).spec_rate() == old(self).spec_rate(),
    {
        if ok {
            if let Some(w) = self.pending {
                self.rate = w;
            }
        }
        self.pending = None;
    }
}

} // verus!
