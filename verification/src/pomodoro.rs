//! The pomodoro controller: work and rest taking turns, second by second.
//!
//! The caller races three things against each other: a timer of one
//! second, a press of the play/pause button, and the refresh of the
//! display. Whichever ends first is handed to [`Pomodoro::step`] as an
//! [`Event`]; the other two are dropped. The step changes the timer and
//! says which tone to play, if any.

use vstd::prelude::*;
use crate::display::bitmaps::shows;
use crate::display::Frame;
use crate::types::{Buzzer, State, TimerConfig};

verus! {

/// Microseconds between two ticks of the timer.
pub const TICK_MICROS: u64 = 1_000_000;

/// Microseconds for which the display is asked to show the state's glyph
/// in one iteration: longer than a tick, so that the refresh never ends an
/// iteration by itself while the clock runs.
pub const DISPLAY_MICROS: u64 = 1_500_000;

/// What ended an iteration of the controller's loop.
#[derive(Clone, Copy, Debug, PartialEq, Eq, Structural)]
pub enum Event {
    /// A second has passed.
    Tick,
    /// The play/pause button was pressed.
    Button,
    /// The display was refreshed for as long as it was asked to be.
    DisplayElapsed,
}

/// The timer: its state, the seconds left in the current interval, and the
/// configuration it runs with.
#[derive(Clone, Copy, Debug, PartialEq, Eq, Structural)]
pub struct Pomodoro {
    /// The current state.
    pub state: State,
    /// Seconds left in the current interval.
    pub countdown: u32,
    /// Lengths of the intervals.
    pub config: TimerConfig,
}

impl Pomodoro {
    /// The timer as it enters `state`: the countdown is loaded with the
    /// length of that state's interval.
    pub open spec fn entering(config: TimerConfig, state: State) -> Pomodoro {
        Pomodoro { state, countdown: config.spec_timer_for(state), config }
    }

    /// Whether the second that passes next is the interval's last.
    pub open spec fn runs_out(self) -> bool {
        self.state.counts_down() && self.countdown <= 1
    }

    /// The timer a second later. A held timer stands still. A running one
    /// counts down, and enters the next state when its interval runs out.
    pub open spec fn ticked(self) -> Pomodoro {
        if self.runs_out() {
            Self::entering(self.config, self.state.spec_next())
        } else if self.state.counts_down() {
            Pomodoro { countdown: (self.countdown - 1) as u32, ..self }
        } else {
            self
        }
    }

    /// The timer after a press of the button: the state is toggled and the
    /// countdown kept.
    pub open spec fn pressed(self) -> Pomodoro {
        Pomodoro { state: self.state.spec_toggle(), ..self }
    }

    /// The timer after `event`.
    pub open spec fn after(self, event: Event) -> Pomodoro {
        match event {
            Event::Tick => self.ticked(),
            Event::Button => self.pressed(),
            Event::DisplayElapsed => self,
        }
    }

    /// The tone that `event` asks for: the start tone when a second ends
    /// an interval, none otherwise.
    pub open spec fn tone(self, event: Event) -> Option<Buzzer> {
        if event == Event::Tick && self.runs_out() {
            Some(Buzzer::Start)
        } else {
            None
        }
    }

    /// The timer `seconds` ticks later.
    pub open spec fn after_ticks(self, seconds: nat) -> Pomodoro
        decreases seconds,
    {
        if seconds == 0 {
            self
        } else {
            self.after_ticks((seconds - 1) as nat).ticked()
        }
    }

    /// Starts the timer: a work interval begins, and the start tone is to
    /// be played.
    pub fn start(config: TimerConfig) -> (started: (Pomodoro, Buzzer))
        ensures
            started.0 == Self::entering(config, State::Running),
            started.1 == Buzzer::Start,
    {
        let state = State::Running;
        (Pomodoro { state, countdown: config.timer_for(state), config }, Buzzer::Start)
    }

    /// The frame to show while the timer is in its current state.
    pub fn bitmap(&self) -> (frame: Frame<5, 5>)
        ensures
            shows(frame, self.state.glyph()@),
    {
        self.state.bitmap()
    }

    /// Applies the event that ended an iteration and returns the tone to
    /// play, if any.
    ///
    /// On a tick a running timer counts one second down. When that second
    /// is the interval's last, the next state is entered with its full
    /// interval and the start tone is asked for. A timer whose countdown
    /// is already at zero takes this way at once. On a press of the button
    /// the state is toggled and nothing else changes. The end of the
    /// display's refresh changes nothing.
    pub fn step(&mut self, event: Event) -> (tone: Option<Buzzer>)
        ensures
            *final(self) == old(self).after(event),
            tone == old(self).tone(event),
    {
        match event {
            Event::Tick => match self.state {
                State::Running | State::Resting => {
                    if self.countdown <= 1 {
                        self.state = self.state.next();
                        self.countdown = self.config.timer_for(self.state);
                        Some(Buzzer::Start)
                    } else {
                        self.countdown = self.countdown - 1;
                        None
                    }
                },
                State::Paused => None,
            },
            Event::Button => {
                self.state = self.state.toggle();
                None
            },
            Event::DisplayElapsed => None,
        }
    }
}

/// An interval lasts as many ticks as its countdown says.
///
/// Take a timer at work or at rest with `countdown` seconds left, and one
/// at least. After fewer ticks than that it is in the same state with as
/// many seconds less. The tick that follows asks for a tone only where it
/// is the last of the `countdown` ticks. After exactly `countdown` ticks
/// the timer has entered the next state with that state's full interval.
pub proof fn interval_lasts_its_countdown(timer: Pomodoro, ticks: nat)
    requires
        timer.state.counts_down(),
        timer.countdown >= 1,
        ticks <= timer.countdown,
    ensures
        ticks < timer.countdown ==> timer.after_ticks(ticks) == (Pomodoro {
            countdown: (timer.countdown - ticks) as u32,
            ..timer
        }),
        ticks < timer.countdown ==> (timer.after_ticks(ticks).tone(Event::Tick) is Some <==> ticks + 1
            == timer.countdown),
        ticks == timer.countdown ==> timer.after_ticks(ticks) == Pomodoro::entering(
            timer.config,
            timer.state.spec_next(),
        ),
    decreases ticks,
{
    if ticks > 0 {
        interval_lasts_its_countdown(timer, (ticks - 1) as nat);
    }
}

/// Work of `N` seconds lasts `N` ticks, and the rest after it as many
/// ticks as it has seconds: where both intervals have a second at least,
/// the timer that enters work is at rest, with the full rest before it,
/// after `N` ticks and not before; and after the ticks of both intervals
/// it enters work again.
pub proof fn work_and_rest_take_turns(config: TimerConfig, ticks: nat)
    requires
        config.work_time >= 1,
        config.rest_time >= 1,
    ensures
        ticks < config.work_time ==> Pomodoro::entering(config, State::Running).after_ticks(ticks).state
            == State::Running,
        Pomodoro::entering(config, State::Running).after_ticks(config.work_time as nat) == Pomodoro::entering(
            config,
            State::Resting,
        ),
        ticks < config.rest_time ==> Pomodoro::entering(config, State::Resting).after_ticks(ticks).state
            == State::Resting,
        Pomodoro::entering(config, State::Resting).after_ticks(config.rest_time as nat) == Pomodoro::entering(
            config,
            State::Running,
        ),
        Pomodoro::entering(config, State::Running).after_ticks((config.work_time + config.rest_time) as nat)
            == Pomodoro::entering(config, State::Running),
{
    let work = Pomodoro::entering(config, State::Running);
    let rest = Pomodoro::entering(config, State::Resting);
    if ticks < config.work_time {
        interval_lasts_its_countdown(work, ticks);
    }
    if ticks < config.rest_time {
        interval_lasts_its_countdown(rest, ticks);
    }
    interval_lasts_its_countdown(work, config.work_time as nat);
    interval_lasts_its_countdown(rest, config.rest_time as nat);
    ticks_add_up(work, config.work_time as nat, config.rest_time as nat);
}

/// Ticks add up: `first + then` ticks lead where `then` ticks lead from
/// the timer after `first` ticks.
pub proof fn ticks_add_up(timer: Pomodoro, first: nat, then: nat)
    ensures
        timer.after_ticks(first + then) == timer.after_ticks(first).after_ticks(then),
    decreases then,
{
    if then > 0 {
        ticks_add_up(timer, first, (then - 1) as nat);
    }
}

/// A held timer stands still: no number of ticks changes it, and none of
/// them asks for a tone.
pub proof fn held_timer_stands_still(timer: Pomodoro, ticks: nat)
    requires
        timer.state == State::Paused,
    ensures
        timer.after_ticks(ticks) == timer,
        timer.tone(Event::Tick) is None,
    decreases ticks,
{
    if ticks > 0 {
        held_timer_stands_still(timer, (ticks - 1) as nat);
    }
}

/// Holding and resuming loses no time: a working timer that is held, left
/// for any number of ticks and resumed is the timer it was.
pub proof fn hold_and_resume_keeps_the_countdown(timer: Pomodoro, ticks: nat)
    requires
        timer.state == State::Running,
    ensures
        timer.pressed().state == State::Paused,
        timer.pressed().after_ticks(ticks).pressed() == timer,
{
    held_timer_stands_still(timer.pressed(), ticks);
}

/// The button does nothing to a timer at rest, and never touches the
/// countdown or the configuration.
pub proof fn button_leaves_rest_alone(timer: Pomodoro)
    ensures
        timer.state == State::Resting ==> timer.pressed() == timer,
        timer.pressed().countdown == timer.countdown,
        timer.pressed().config == timer.config,
{
}

} // verus!
