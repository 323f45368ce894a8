//! The timer's states, tones, configuration and configuration errors.

use vstd::prelude::*;
use crate::display::bitmaps::{frame_5x5, shows, ARROW_RIGHT, CHECK_MARK, CROSS_MARK};
use crate::display::Frame;

verus! {

/// A tone that the speaker can be asked to play.
#[derive(Clone, Copy, Debug, PartialEq, Eq, Structural)]
pub enum Buzzer {
    /// An interval begins.
    Start,
    /// A configuration request was refused.
    Error,
}

impl Buzzer {
    /// Frequency of the tone in hertz.
    pub open spec fn spec_freq(self) -> u32 {
        match self {
            Buzzer::Start => 880,
            Buzzer::Error => 185,
        }
    }

    /// Length of the tone in milliseconds.
    pub open spec fn spec_duration_ms(self) -> u64 {
        match self {
            Buzzer::Start => 200,
            Buzzer::Error => 500,
        }
    }

    /// Frequency of the tone in hertz.
    pub fn freq(&self) -> (hz: u32)
        ensures
            hz == self.spec_freq(),
    {
        match self {
            Self::Start => 880,
            Self::Error => 185,
        }
    }

    /// Duty of the speaker's output while the tone sounds: half of the
    /// output's full scale of 32767.
    pub fn duty(&self) -> (duty: u16)
        ensures
            duty == 16383,
    {
        16383
    }

    /// Length of the tone in milliseconds.
    pub fn duration_ms(&self) -> (ms: u64)
        ensures
            ms == self.spec_duration_ms(),
    {
        match self {
            Self::Start => 200,
            Self::Error => 500,
        }
    }
}

/// The timer's state.
#[derive(Clone, Copy, Debug, PartialEq, Eq, Structural)]
pub enum State {
    /// A work interval is held.
    Paused,
    /// A work interval runs.
    Running,
    /// A rest interval runs.
    Resting,
}

impl State {
    /// The state after a press of the play/pause button.
    pub open spec fn spec_toggle(self) -> State {
        match self {
            State::Paused => State::Running,
            State::Running => State::Paused,
            State::Resting => State::Resting,
        }
    }

    /// The state that follows when an interval has run out.
    pub open spec fn spec_next(self) -> State {
        match self {
            State::Paused => State::Paused,
            State::Running => State::Resting,
            State::Resting => State::Running,
        }
    }

    /// Whether the countdown runs in this state.
    pub open spec fn counts_down(self) -> bool {
        self != State::Paused
    }

    /// The drawing that stands for the state: a cross while held, an arrow
    /// to the right while working, a check mark while resting.
    pub open spec fn glyph(self) -> [u8; 5] {
        match self {
            State::Paused => CROSS_MARK,
            State::Running => ARROW_RIGHT,
            State::Resting => CHECK_MARK,
        }
    }

    /// The state after a press of the play/pause button: a work interval is
    /// held or taken up again, a rest is left alone.
    pub fn toggle(self) -> (s: State)
        ensures
            s == self.spec_toggle(),
    {
        match self {
            State::Paused => State::Running,
            State::Running => State::Paused,
            State::Resting => State::Resting,
        }
    }

    /// The state that follows when an interval has run out: work and rest
    /// take turns, a held interval stays held.
    pub fn next(self) -> (s: State)
        ensures
            s == self.spec_next(),
    {
        match self {
            State::Paused => State::Paused,
            State::Running => State::Resting,
            State::Resting => State::Running,
        }
    }

    /// The frame that shows the state.
    pub fn bitmap(&self) -> (frame: Frame<5, 5>)
        ensures
            shows(frame, self.glyph()@),
    {
        match self {
            State::Paused => frame_5x5(&CROSS_MARK),
            State::Running => frame_5x5(&ARROW_RIGHT),
            State::Resting => frame_5x5(&CHECK_MARK),
        }
    }
}

/// Pressing the button twice in a work interval leaves the state as it was,
/// and a press during a rest changes nothing.
pub proof fn toggle_is_an_involution_outside_rest(s: State)
    ensures
        s != State::Resting ==> s.spec_toggle().spec_toggle() == s,
        State::Resting.spec_toggle() == State::Resting,
{
}

/// `next` swaps work and rest and leaves a held interval held, so applying
/// it twice gives every state back.
pub proof fn next_cycles_work_and_rest(s: State)
    ensures
        State::Running.spec_next() == State::Resting,
        State::Resting.spec_next() == State::Running,
        State::Paused.spec_next() == State::Paused,
        s.spec_next().spec_next() == s,
{
}

/// Lengths of the two intervals, in seconds.
#[derive(Clone, Copy, Debug, PartialEq, Eq, Structural)]
pub struct TimerConfig {
    /// Work time in seconds
    pub work_time: u32,
    /// Rest time in seconds
    pub rest_time: u32,
}

impl Default for TimerConfig {
    /// Twenty-five minutes of work and five of rest.
    fn default() -> (config: Self)
        ensures
            config == TimerConfig::spec_default(),
    {
        TimerConfig { work_time: 1500, rest_time: 300 }
    }
}

impl TimerConfig {
    /// The configuration used when none is stored.
    pub open spec fn spec_default() -> TimerConfig {
        TimerConfig { work_time: 1500, rest_time: 300 }
    }

    /// The seconds that an interval in `state` lasts.
    pub open spec fn spec_timer_for(self, state: State) -> u32 {
        match state {
            State::Paused => 0,
            State::Running => self.work_time,
            State::Resting => self.rest_time,
        }
    }

    /// The configuration of `work` and `rest` minutes, where both fit in
    /// seconds.
    pub open spec fn spec_from_minutes(work: u32, rest: u32) -> Option<TimerConfig> {
        if work * 60 <= u32::MAX && rest * 60 <= u32::MAX {
            Some(TimerConfig { work_time: (work * 60) as u32, rest_time: (rest * 60) as u32 })
        } else {
            None
        }
    }

    /// Returns a timer for a specified `State`
    pub fn timer_for(&self, state: State) -> (seconds: u32)
        ensures
            seconds == self.spec_timer_for(state),
    {
        match state {
            State::Paused => 0,
            State::Running => self.work_time,
            State::Resting => self.rest_time,
        }
    }

    /// The configuration of `work` and `rest` minutes, or `None` where one
    /// of them does not fit in 32 bits once counted in seconds.
    pub fn from_minutes(work: u32, rest: u32) -> (config: Option<TimerConfig>)
        ensures
            config == TimerConfig::spec_from_minutes(work, rest),
    {
        match (work.checked_mul(60), rest.checked_mul(60)) {
            (Some(work_time), Some(rest_time)) => Some(TimerConfig { work_time, rest_time }),
            _ => None,
        }
    }

    /// The two intervals in whole minutes, work first.
    pub fn minutes(&self) -> (m: (u32, u32))
        ensures
            m.0 == self.work_time / 60,
            m.1 == self.rest_time / 60,
    {
        (self.work_time / 60, self.rest_time / 60)
    }
}

/// Counting minutes in seconds and back gives the minutes again.
pub proof fn minutes_survive_the_seconds(work: u32, rest: u32)
    requires
        TimerConfig::spec_from_minutes(work, rest) is Some,
    ensures
        TimerConfig::spec_from_minutes(work, rest).unwrap().work_time / 60 == work,
        TimerConfig::spec_from_minutes(work, rest).unwrap().rest_time / 60 == rest,
{
}

/// Why a configuration message was refused.
#[derive(Clone, Copy, Debug, PartialEq, Eq, Structural)]
pub enum ConfigError {
    /// The message does not consist of two fields with one comma between.
    InvalidFormat,
    /// A field is not UTF-8 text.
    Utf8,
    /// A field is not a decimal number of minutes that fits, in seconds, in
    /// 32 bits.
    Parse,
}

} // verus!
