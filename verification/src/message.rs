//! The configuration message: `<work minutes>,<rest minutes>` in ASCII.
//!
//! A message has exactly two fields with one comma between them. A field is
//! a decimal number, which a `+` may precede, and counts minutes. What the
//! timer keeps are seconds, so a field must still fit in 32 bits when
//! multiplied by sixty.

use vstd::prelude::*;
use vstd::slice::slice_subrange;
use vstd::utf8::{
    is_leading_byte_width_1,
    partial_valid_utf8,
    partial_valid_utf8_extend_ascii_block,
    valid_utf8,
};
use crate::types::{ConfigError, TimerConfig};

verus! {

/// The byte that parts the two fields.
pub const COMMA: u8 = 0x2c;

/// The sign that may stand before a field's digits.
pub const PLUS: u8 = 0x2b;

/// The digit zero in ASCII.
pub const ZERO: u8 = 0x30;

/// The digit nine in ASCII.
pub const NINE: u8 = 0x39;

/// The most minutes that fit in 32 bits when counted in seconds.
pub const MAX_MINUTES: u32 = 71582788;

/// Whether `byte` is an ASCII digit.
pub open spec fn is_digit(byte: u8) -> bool {
    ZERO <= byte <= NINE
}

/// Whether every byte of `bytes` is an ASCII digit.
pub open spec fn all_digits(bytes: Seq<u8>) -> bool {
    forall|i: int| 0 <= i < bytes.len() ==> is_digit(#[trigger] bytes[i])
}

/// The number that a string of decimal digits writes.
pub open spec fn digits_value(digits: Seq<u8>) -> nat
    decreases digits.len(),
{
    if digits.len() == 0 {
        0
    } else {
        digits_value(digits.drop_last()) * 10 + (digits.last() - ZERO) as nat
    }
}

/// A field without the `+` that may lead it.
pub open spec fn unsigned_part(field: Seq<u8>) -> Seq<u8> {
    if field.len() > 0 && field[0] == PLUS {
        field.subrange(1, field.len() as int)
    } else {
        field
    }
}

/// Whether a field is a decimal number: one digit or more, after at most
/// one `+`.
pub open spec fn is_number(field: Seq<u8>) -> bool {
    unsigned_part(field).len() > 0 && all_digits(unsigned_part(field))
}

/// The seconds that a field of minutes stands for, where it is a number
/// and the seconds fit in 32 bits.
pub open spec fn field_seconds(field: Seq<u8>) -> Option<u32> {
    if is_number(field) && digits_value(unsigned_part(field)) <= MAX_MINUTES {
        Some((digits_value(unsigned_part(field)) * 60) as u32)
    } else {
        None
    }
}

/// What is wrong with a field, if anything: text is asked for before
/// digits.
pub open spec fn field_error(field: Seq<u8>) -> Option<ConfigError> {
    if !valid_utf8(field) {
        Some(ConfigError::Utf8)
    } else if field_seconds(field) is None {
        Some(ConfigError::Parse)
    } else {
        None
    }
}

/// Whether the only comma of `message` is at `at`.
pub open spec fn separator_at(message: Seq<u8>, at: int) -> bool {
    &&& 0 <= at < message.len()
    &&& message[at] == COMMA
    &&& forall|j: int| 0 <= j < message.len() && j != at ==> #[trigger] message[j] != COMMA
}

/// Whether `message` has exactly two fields.
pub open spec fn has_two_fields(message: Seq<u8>) -> bool {
    exists|at: int| separator_at(message, at)
}

/// The place of the comma in a message of two fields.
pub open spec fn separator(message: Seq<u8>) -> int {
    choose|at: int| separator_at(message, at)
}

/// The field before the comma.
pub open spec fn work_field(message: Seq<u8>) -> Seq<u8> {
    message.subrange(0, separator(message))
}

/// The field after the comma.
pub open spec fn rest_field(message: Seq<u8>) -> Seq<u8> {
    message.subrange(separator(message) + 1, message.len() as int)
}

/// What a message means. The work field is judged before the rest field.
pub open spec fn parsed(message: Seq<u8>) -> Result<TimerConfig, ConfigError> {
    if !has_two_fields(message) {
        Err(ConfigError::InvalidFormat)
    } else if let Some(error) = field_error(work_field(message)) {
        Err(error)
    } else if let Some(error) = field_error(rest_field(message)) {
        Err(error)
    } else {
        Ok(
            TimerConfig {
                work_time: field_seconds(work_field(message)).unwrap(),
                rest_time: field_seconds(rest_field(message)).unwrap(),
            },
        )
    }
}

/// A string of digits writes a number no smaller than any of its
/// beginnings does.
pub proof fn digits_value_grows(digits: Seq<u8>, len: int)
    requires
        all_digits(digits),
        0 <= len <= digits.len(),
    ensures
        digits_value(digits.subrange(0, len)) <= digits_value(digits),
    decreases digits.len(),
{
    if len == digits.len() {
        assert(digits.subrange(0, len) =~= digits);
    } else {
        assert(digits.drop_last().subrange(0, len) =~= digits.subrange(0, len));
        digits_value_grows(digits.drop_last(), len);
    }
}

/// One digit more multiplies the number by ten and adds the digit.
pub proof fn digits_value_step(digits: Seq<u8>, len: int)
    requires
        0 <= len < digits.len(),
    ensures
        digits_value(digits.subrange(0, len + 1)) == digits_value(digits.subrange(0, len)) * 10 + (digits[len]
            - ZERO) as nat,
{
    assert(digits.subrange(0, len + 1).drop_last() =~= digits.subrange(0, len));
}

/// A message has at most one place where its only comma is.
pub proof fn separator_is_unique(message: Seq<u8>, at: int)
    requires
        separator_at(message, at),
    ensures
        has_two_fields(message),
        separator(message) == at,
{
}

/// A number is text: a field of digits, with or without its sign, is
/// well-formed UTF-8.
pub proof fn numbers_are_text(field: Seq<u8>)
    requires
        is_number(field),
    ensures
        valid_utf8(field),
{
    assert forall|i: int| 0 <= i < field.len() implies #[trigger] is_leading_byte_width_1(field[i]) by {
        if field[0] == PLUS && i > 0 {
            assert(is_digit(unsigned_part(field)[i - 1]));
        }
    }
    partial_valid_utf8_extend_ascii_block(field, 0, field.len() as int);
    assert(field.subrange(0, field.len() as int) =~= field);
}

/// A message is accepted exactly when it is two numbers of minutes with a
/// comma between, each small enough to be counted in seconds; it then
/// gives those seconds, work first.
pub proof fn accepted_are_two_numbers(message: Seq<u8>)
    ensures
        parsed(message) is Ok <==> {
            &&& has_two_fields(message)
            &&& field_seconds(work_field(message)) is Some
            &&& field_seconds(rest_field(message)) is Some
        },
        parsed(message) is Ok ==> parsed(message) == Ok::<TimerConfig, ConfigError>(
            TimerConfig {
                work_time: field_seconds(work_field(message)).unwrap(),
                rest_time: field_seconds(rest_field(message)).unwrap(),
            },
        ),
{
    if field_seconds(work_field(message)) is Some {
        numbers_are_text(work_field(message));
    }
    if field_seconds(rest_field(message)) is Some {
        numbers_are_text(rest_field(message));
    }
}

/// Whether `bytes` are UTF-8 text, as `core::str::from_utf8` judges it: the
/// call succeeds on well-formed UTF-8 and on nothing else.
#[verifier::external_body]
fn is_utf8(bytes: &[u8]) -> (valid: bool)
    ensures
        valid == valid_utf8(bytes@),
{
    core::str::from_utf8(bytes).is_ok()
}

/// The seconds that a field of minutes stands for, or `None` where the
/// field is no number or the seconds do not fit in 32 bits.
pub fn parse_minutes(field: &[u8]) -> (seconds: Option<u32>)
    ensures
        seconds == field_seconds(field@),
{
    let len: usize = field.len();
    let start: usize = if len > 0 && field[0] == PLUS {
        1
    } else {
        0
    };
    if start == len {
        return None;
    }
    let ghost digits = unsigned_part(field@);
    let mut minutes: u32 = 0;
    let mut i: usize = start;
    while i < len
        invariant
            start <= i <= len,
            len == field@.len(),
            digits == field@.subrange(start as int, len as int),
            digits == unsigned_part(field@),
            all_digits(digits.subrange(0, i - start)),
            minutes == digits_value(digits.subrange(0, i - start)),
            minutes <= MAX_MINUTES,
        decreases len - i,
    {
        let byte: u8 = field[i];
        if byte < ZERO || byte > NINE {
            assert(!is_digit(digits[i - start]));
            return None;
        }
        let digit: u32 = (byte - ZERO) as u32;
        proof {
            digits_value_step(digits, i - start);
        }
        if minutes > (MAX_MINUTES - digit) / 10 {
            proof {
                if all_digits(digits) {
                    digits_value_grows(digits, i - start + 1);
                }
            }
            return None;
        }
        assert forall|j: int| 0 <= j < i + 1 - start implies is_digit(
            #[trigger] digits.subrange(0, i + 1 - start)[j],
        ) by {}
        minutes = minutes * 10 + digit;
        i += 1;
    }
    assert(digits.subrange(0, len - start) =~= digits);
    Some(minutes * 60)
}

/// Judges one field as `field_error` does and gives its seconds.
fn parse_field(field: &[u8]) -> (seconds: Result<u32, ConfigError>)
    ensures
        match seconds {
            Ok(s) => field_error(field@) is None && field_seconds(field@) == Some(s),
            Err(error) => field_error(field@) == Some(error),
        },
{
    if !is_utf8(field) {
        return Err(ConfigError::Utf8);
    }
    match parse_minutes(field) {
        Some(s) => Ok(s),
        None => Err(ConfigError::Parse),
    }
}

/// Reads a configuration from the bytes of a message.
///
/// The message is refused as `InvalidFormat` unless it holds exactly one
/// comma. Then the work field and after it the rest field are judged: one
/// that is no UTF-8 text gives `Utf8`, one that is no number of minutes, or
/// too many to count in seconds, gives `Parse`.
pub fn parse_config(message: &[u8]) -> (config: Result<TimerConfig, ConfigError>)
    ensures
        config == parsed(message@),
{
    let len: usize = message.len();
    let mut at: usize = 0;
    while at < len && message[at] != COMMA
        invariant
            at <= len,
            len == message@.len(),
            forall|j: int| 0 <= j < at ==> #[trigger] message@[j] != COMMA,
        decreases len - at,
    {
        at += 1;
    }
    if at == len {
        return Err(ConfigError::InvalidFormat);
    }
    let mut next: usize = at + 1;
    while next < len && message[next] != COMMA
        invariant
            at < next <= len,
            len == message@.len(),
            forall|j: int| at < j < next ==> #[trigger] message@[j] != COMMA,
        decreases len - next,
    {
        next += 1;
    }
    if next < len {
        assert forall|k: int| !separator_at(message@, k) by {}
        return Err(ConfigError::InvalidFormat);
    }
    proof {
        separator_is_unique(message@, at as int);
    }
    let work = slice_subrange(message, 0, at);
    let rest = slice_subrange(message, at + 1, len);
    let work_time = match parse_field(work) {
        Ok(seconds) => seconds,
        Err(error) => {
            return Err(error);
        },
    };
    let rest_time = match parse_field(rest) {
        Ok(seconds) => seconds,
        Err(error) => {
            return Err(error);
        },
    };
    Ok(TimerConfig { work_time, rest_time })
}

/// The bytes that a message of the transport holds, in order.
pub uninterp spec fn message_bytes(message: heapless::Vec<u8, 32>) -> Seq<u8>;

/// A vector of a fixed capacity, as the transport delivers messages in.
#[verifier::external_type_specification]
#[verifier::external_body]
#[verifier::reject_recursive_types(T)]
pub struct ExHeaplessVec<T, const N: usize>(heapless::Vec<T, N>);

/// The bytes of a message as a slice, by `heapless::Vec::as_slice`: the
/// elements that the vector holds, in order.
#[verifier::external_body]
fn message_slice(message: &heapless::Vec<u8, 32>) -> (bytes: &[u8])
    ensures
        bytes@ == message_bytes(*message),
{
    message.as_slice()
}

/// Reads a configuration from a message of the transport, as
/// `parse_config` reads it from the message's bytes.
pub fn parse_message(message: &heapless::Vec<u8, 32>) -> (config: Result<TimerConfig, ConfigError>)
    ensures
        config == parsed(message_bytes(*message)),
{
    parse_config(message_slice(message))
}

} // verus!
