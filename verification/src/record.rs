//! The stored configuration record.
//!
//! A configuration is kept in non-volatile storage as one record of
//! `RECORD_SIZE` bytes: the two intervals in postcard's encoding, framed by
//! COBS with a closing zero byte, then zeros up to the record's size.
//! Storage that was erased, or that holds anything else that does not
//! decode, stands for no configuration at all.

use vstd::prelude::*;
use crate::types::TimerConfig;

verus! {

/// Bytes in a stored record.
pub const RECORD_SIZE: usize = 16;

/// The frame that postcard writes for the pair of a work and a rest time:
/// both numbers serialized one after the other, COBS-encoded, and closed by
/// a zero byte.
pub uninterp spec fn cobs_frame(work: u32, rest: u32) -> Seq<u8>;

/// The pair that postcard reads from a buffer holding a COBS frame, or
/// `None` where the buffer does not decode to one.
pub uninterp spec fn cobs_payload(buffer: Seq<u8>) -> Option<(u32, u32)>;

/// Why postcard could not encode or decode.
#[verifier::external_type_specification]
#[verifier::external_body]
pub struct ExPostcardError(postcard::Error);

/// Writes the frame of a pair at the start of `buf`, by
/// `postcard::to_slice_cobs`, and returns the frame's length.
///
/// The call fails only for want of room: it succeeds exactly when the
/// frame fits in `buf`. It then has written the frame and left the bytes
/// behind it as they were. A failed call may have written to `buf`.
#[verifier::external_body]
fn to_slice_cobs(work: u32, rest: u32, buf: &mut [u8]) -> (used: Result<usize, postcard::Error>)
    ensures
        final(buf)@.len() == old(buf)@.len(),
        match used {
            Ok(len) => {
                &&& len <= old(buf)@.len()
                &&& final(buf)@.subrange(0, len as int) == cobs_frame(work, rest)
                &&& final(buf)@.subrange(len as int, old(buf)@.len() as int) == old(buf)@.subrange(
                    len as int,
                    old(buf)@.len() as int,
                )
            },
            Err(_) => cobs_frame(work, rest).len() > old(buf)@.len(),
        },
{
    match postcard::to_slice_cobs(&(work, rest), buf) {
        Ok(frame) => Ok(frame.len()),
        Err(error) => Err(error),
    }
}

/// Reads a pair from the COBS frame at the start of `buf`, by
/// `postcard::from_bytes_cobs`, which decodes in place: `buf` keeps its
/// length and may hold other bytes afterwards.
#[verifier::external_body]
fn from_bytes_cobs(buf: &mut [u8]) -> (pair: Result<(u32, u32), postcard::Error>)
    ensures
        final(buf)@.len() == old(buf)@.len(),
        match pair {
            Ok(times) => cobs_payload(old(buf)@) == Some(times),
            Err(_) => cobs_payload(old(buf)@) is None,
        },
{
    postcard::from_bytes_cobs::<(u32, u32)>(buf)
}

/// `len` zero bytes.
pub open spec fn zeros(len: nat) -> Seq<u8> {
    Seq::new(len, |i: int| 0u8)
}

/// The record that stores `config`: its frame and zeros behind it, where
/// the frame fits in a record.
pub open spec fn record_of(config: TimerConfig) -> Option<Seq<u8>> {
    let frame = cobs_frame(config.work_time, config.rest_time);
    if frame.len() <= RECORD_SIZE {
        Some(frame + zeros((RECORD_SIZE - frame.len()) as nat))
    } else {
        None
    }
}

/// The configuration that stored bytes hold, if they hold one.
pub open spec fn decoded(stored: Seq<u8>) -> Option<TimerConfig> {
    match cobs_payload(stored) {
        Some((work_time, rest_time)) => Some(TimerConfig { work_time, rest_time }),
        None => None,
    }
}

/// The configuration to run with, given what decoding the stored bytes
/// gave.
pub open spec fn spec_config_or_default(decoded: Option<TimerConfig>) -> TimerConfig {
    match decoded {
        Some(config) => config,
        None => TimerConfig::spec_default(),
    }
}

/// The record that stores `config`, or `None` where its frame is longer
/// than a record.
pub fn encode(config: &TimerConfig) -> (record: Option<[u8; RECORD_SIZE]>)
    ensures
        match record {
            Some(bytes) => record_of(*config) == Some(bytes@),
            None => record_of(*config) is None,
        },
{
    let mut buf = [0u8;RECORD_SIZE];
    match to_slice_cobs(config.work_time, config.rest_time, &mut buf) {
        Ok(len) => {
            assert(buf@ =~= cobs_frame(config.work_time, config.rest_time) + zeros((RECORD_SIZE - len) as nat)) by {
                let frame = cobs_frame(config.work_time, config.rest_time);
                assert forall|i: int| 0 <= i < RECORD_SIZE implies buf@[i] == (frame + zeros(
                    (RECORD_SIZE - len) as nat,
                ))[i] by {
                    if i >= len {
                        assert(buf@.subrange(len as int, RECORD_SIZE as int)[i - len] == buf@[i]);
                    }
                }
            }
            Some(buf)
        },
        Err(_) => None,
    }
}

/// The configuration that a record holds, or `None` where it does not
/// decode. The record may come from storage of any kind: erased, torn or
/// overwritten bytes are simply not a configuration.
pub fn decode(record: [u8; RECORD_SIZE]) -> (config: Option<TimerConfig>)
    ensures
        config == decoded(record@),
{
    let mut buf = record;
    match from_bytes_cobs(&mut buf) {
        Ok((work_time, rest_time)) => Some(TimerConfig { work_time, rest_time }),
        Err(_) => None,
    }
}

/// The configuration to run with, given what decoding the stored bytes
/// gave: the stored one, and the default where there is none.
pub fn config_or_default(decoded: Option<TimerConfig>) -> (config: TimerConfig)
    ensures
        config == spec_config_or_default(decoded),
{
    match decoded {
        Some(config) => config,
        None => TimerConfig::default(),
    }
}

} // verus!
