//! Provisioning: how the timer comes by its configuration at startup.
//!
//! Before the timer runs, the device waits for one of two things. A press
//! of the start button ends the wait, and the timer runs with what storage
//! holds. A configuration message is parsed, stored, and adopted once it is
//! stored; a message that is refused, or that could not be stored, is
//! answered with the error tone and the wait goes on.
//!
//! The functions here decide. Waiting, storing and playing tones are the
//! caller's part.

use vstd::prelude::*;
use crate::message::{message_bytes, parse_message, parsed};
use crate::record::{
    config_or_default,
    decode,
    decoded,
    encode,
    record_of,
    spec_config_or_default,
    RECORD_SIZE,
};
use crate::types::{Buzzer, ConfigError, TimerConfig};

verus! {

/// What to do about a configuration message.
#[derive(Clone, Copy, Debug, PartialEq, Eq)]
pub enum MessageOutcome {
    /// The message is valid: write `record` to storage and report how that
    /// went to `on_store_result`, together with `config`.
    Store { record: [u8; RECORD_SIZE], config: TimerConfig },
    /// The message is refused: play the tone and wait on.
    Refuse(Buzzer),
    /// The message is valid but has no record: wait on.
    Wait,
}

/// What to do once storage has answered.
#[derive(Clone, Copy, Debug, PartialEq, Eq, Structural)]
pub enum StoreOutcome {
    /// The record is stored: provisioning ends with this configuration.
    Finished(TimerConfig),
    /// The record is not stored: play the tone and wait on.
    Retry(Buzzer),
}

/// The outcome for a message, given what parsing it gave and, for a
/// configuration, the record that was made of it.
pub open spec fn spec_on_parsed(
    parsed: Result<TimerConfig, ConfigError>,
    record: Option<[u8; RECORD_SIZE]>,
) -> MessageOutcome {
    match parsed {
        Err(_) => MessageOutcome::Refuse(Buzzer::Error),
        Ok(config) => match record {
            Some(bytes) => MessageOutcome::Store { record: bytes, config },
            None => MessageOutcome::Wait,
        },
    }
}

/// The outcome once storage has answered for `config`.
pub open spec fn spec_on_store_result(stored: bool, config: TimerConfig) -> StoreOutcome {
    if stored {
        StoreOutcome::Finished(config)
    } else {
        StoreOutcome::Retry(Buzzer::Error)
    }
}

/// The configuration that a press of the start button ends provisioning
/// with, given what was read from storage.
pub open spec fn spec_on_skip(read: Option<[u8; RECORD_SIZE]>) -> TimerConfig {
    match read {
        Some(record) => spec_config_or_default(decoded(record@)),
        None => TimerConfig::spec_default(),
    }
}

/// Decides about a message from what parsing it gave and, for a
/// configuration, from the record that was made of it.
///
/// A message that did not parse is refused with the error tone. A
/// configuration goes to storage with its record; one without a record is
/// passed over.
pub fn on_parsed(parsed: Result<TimerConfig, ConfigError>, record: Option<[u8; RECORD_SIZE]>) -> (outcome:
    MessageOutcome)
    ensures
        outcome == spec_on_parsed(parsed, record),
{
    match parsed {
        Err(_) => MessageOutcome::Refuse(Buzzer::Error),
        Ok(config) => match record {
            Some(bytes) => MessageOutcome::Store { record: bytes, config },
            None => MessageOutcome::Wait,
        },
    }
}

/// Decides about a configuration message of the transport.
///
/// The message is parsed as `parsed` says. Where it is a configuration
/// that has a record, both are handed out for storing; no other message
/// asks for anything to be stored.
pub fn on_message(message: &heapless::Vec<u8, 32>) -> (outcome: MessageOutcome)
    ensures
        match outcome {
            MessageOutcome::Store { record, config } => {
                &&& parsed(message_bytes(*message)) == Ok::<TimerConfig, ConfigError>(config)
                &&& record_of(config) == Some(record@)
            },
            MessageOutcome::Refuse(tone) => {
                &&& tone == Buzzer::Error
                &&& parsed(message_bytes(*message)) is Err
            },
            MessageOutcome::Wait => {
                &&& parsed(message_bytes(*message)) is Ok
                &&& record_of(parsed(message_bytes(*message)).unwrap()) is None
            },
        },
{
    let parsed = parse_message(message);
    let record = match parsed {
        Ok(config) => encode(&config),
        Err(_) => None,
    };
    on_parsed(parsed, record)
}

/// Decides what follows the attempt to store the record of `config`.
///
/// Once the record is stored the configuration is adopted and provisioning
/// is over. A failed write is answered with the error tone, and the wait
/// goes on.
pub fn on_store_result(stored: bool, config: TimerConfig) -> (outcome: StoreOutcome)
    ensures
        outcome == spec_on_store_result(stored, config),
{
    if stored {
        StoreOutcome::Finished(config)
    } else {
        StoreOutcome::Retry(Buzzer::Error)
    }
}

/// The configuration to run with after a press of the start button.
///
/// `read` is the record read from storage, or `None` where reading failed.
/// The stored configuration is taken where the record holds one, the
/// default in every other case.
pub fn on_skip(read: Option<[u8; RECORD_SIZE]>) -> (config: TimerConfig)
    ensures
        config == spec_on_skip(read),
{
    match read {
        Some(record) => config_or_default(decode(record)),
        None => TimerConfig::default(),
    }
}

} // verus!
