use microbit_pomodoro::types::{Buzzer, ConfigError, State, TimerConfig};

#[test]
fn toggle_twice_gives_a_work_state_back() {
    assert_eq!(State::Paused.toggle().toggle(), State::Paused);
    assert_eq!(State::Running.toggle().toggle(), State::Running);
}

#[test]
fn toggle_swaps_paused_and_running() {
    assert_eq!(State::Paused.toggle(), State::Running);
    assert_eq!(State::Running.toggle(), State::Paused);
}

#[test]
fn toggle_leaves_resting_alone() {
    assert_eq!(State::Resting.toggle(), State::Resting);
}

#[test]
fn next_swaps_running_and_resting() {
    assert_eq!(State::Running.next(), State::Resting);
    assert_eq!(State::Resting.next(), State::Running);
}

#[test]
fn next_fixes_paused() {
    assert_eq!(State::Paused.next(), State::Paused);
    assert_eq!(State::Paused.next().next(), State::Paused);
}

#[test]
fn next_twice_gives_every_state_back() {
    for state in [State::Paused, State::Running, State::Resting] {
        assert_eq!(state.next().next(), state);
    }
}

#[test]
fn start_tone_is_880_hz_for_200_ms() {
    assert_eq!(Buzzer::Start.freq(), 880);
    assert_eq!(Buzzer::Start.duration_ms(), 200);
}

#[test]
fn error_tone_is_185_hz_for_500_ms() {
    assert_eq!(Buzzer::Error.freq(), 185);
    assert_eq!(Buzzer::Error.duration_ms(), 500);
}

#[test]
fn both_tones_sound_at_half_duty() {
    assert_eq!(Buzzer::Start.duty(), 16383);
    assert_eq!(Buzzer::Error.duty(), 16383);
}

#[test]
fn default_config_is_25_and_5_minutes() {
    let config = TimerConfig::default();
    assert_eq!(config, TimerConfig { work_time: 1500, rest_time: 300 });
    assert_eq!(config.minutes(), (25, 5));
}

#[test]
fn timer_for_picks_the_interval_of_the_state() {
    let config = TimerConfig { work_time: 600, rest_time: 120 };
    assert_eq!(config.timer_for(State::Running), 600);
    assert_eq!(config.timer_for(State::Resting), 120);
    assert_eq!(config.timer_for(State::Paused), 0);
}

#[test]
fn from_minutes_counts_in_seconds() {
    assert_eq!(
        TimerConfig::from_minutes(25, 5),
        Some(TimerConfig { work_time: 1500, rest_time: 300 })
    );
    assert_eq!(TimerConfig::from_minutes(0, 0), Some(TimerConfig { work_time: 0, rest_time: 0 }));
}

#[test]
fn from_minutes_takes_the_most_that_fits() {
    assert_eq!(
        TimerConfig::from_minutes(71_582_788, 71_582_788),
        Some(TimerConfig { work_time: 4_294_967_280, rest_time: 4_294_967_280 })
    );
}

#[test]
fn from_minutes_refuses_what_does_not_fit() {
    assert_eq!(TimerConfig::from_minutes(71_582_789, 5), None);
    assert_eq!(TimerConfig::from_minutes(5, 71_582_789), None);
    assert_eq!(TimerConfig::from_minutes(u32::MAX, u32::MAX), None);
}

#[test]
fn minutes_round_down() {
    let config = TimerConfig { work_time: 119, rest_time: 60 };
    assert_eq!(config.minutes(), (1, 1));
}

#[test]
fn minutes_survive_the_seconds() {
    for (work, rest) in [(0u32, 0u32), (1, 2), (25, 5), (71_582_788, 1)] {
        let config = TimerConfig::from_minutes(work, rest).unwrap();
        assert_eq!(config.minutes(), (work, rest));
    }
}

#[test]
fn config_errors_are_three_different_things() {
    assert_ne!(ConfigError::InvalidFormat, ConfigError::Utf8);
    assert_ne!(ConfigError::Utf8, ConfigError::Parse);
    assert_ne!(ConfigError::Parse, ConfigError::InvalidFormat);
}
