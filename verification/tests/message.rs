use microbit_pomodoro::message::{parse_config, parse_message, parse_minutes};
use microbit_pomodoro::types::{ConfigError, TimerConfig};

fn config(work_time: u32, rest_time: u32) -> Result<TimerConfig, ConfigError> {
    Ok(TimerConfig { work_time, rest_time })
}

#[test]
fn parses_25_and_5_minutes() {
    assert_eq!(parse_config(b"25,5"), config(1500, 300));
}

#[test]
fn refuses_a_message_without_comma() {
    assert_eq!(parse_config(b"abc"), Err(ConfigError::InvalidFormat));
}

#[test]
fn refuses_an_empty_second_field() {
    assert_eq!(parse_config(b"25,"), Err(ConfigError::Parse));
}

#[test]
fn refuses_an_empty_first_field() {
    assert_eq!(parse_config(b",5"), Err(ConfigError::Parse));
}

#[test]
fn refuses_an_empty_message() {
    assert_eq!(parse_config(b""), Err(ConfigError::InvalidFormat));
}

#[test]
fn refuses_a_lone_comma() {
    assert_eq!(parse_config(b","), Err(ConfigError::Parse));
}

#[test]
fn refuses_three_fields() {
    assert_eq!(parse_config(b"1,2,3"), Err(ConfigError::InvalidFormat));
    assert_eq!(parse_config(b"1,2,"), Err(ConfigError::InvalidFormat));
    assert_eq!(parse_config(b",,"), Err(ConfigError::InvalidFormat));
}

#[test]
fn refuses_a_number_that_is_not_decimal() {
    assert_eq!(parse_config(b"0x10,5"), Err(ConfigError::Parse));
    assert_eq!(parse_config(b"2.5,5"), Err(ConfigError::Parse));
    assert_eq!(parse_config(b"25,5m"), Err(ConfigError::Parse));
    assert_eq!(parse_config(b"1_0,5"), Err(ConfigError::Parse));
}

#[test]
fn refuses_blanks_and_line_ends() {
    assert_eq!(parse_config(b" 25,5"), Err(ConfigError::Parse));
    assert_eq!(parse_config(b"25, 5"), Err(ConfigError::Parse));
    assert_eq!(parse_config(b"25,5\n"), Err(ConfigError::Parse));
    assert_eq!(parse_config(b"25,5\0"), Err(ConfigError::Parse));
}

#[test]
fn refuses_a_negative_number() {
    assert_eq!(parse_config(b"-1,5"), Err(ConfigError::Parse));
    assert_eq!(parse_config(b"25,-0"), Err(ConfigError::Parse));
}

#[test]
fn takes_a_plus_before_the_digits() {
    assert_eq!(parse_config(b"+25,+5"), config(1500, 300));
}

#[test]
fn refuses_a_sign_without_digits() {
    assert_eq!(parse_config(b"+,5"), Err(ConfigError::Parse));
    assert_eq!(parse_config(b"25,+"), Err(ConfigError::Parse));
    assert_eq!(parse_config(b"++1,5"), Err(ConfigError::Parse));
}

#[test]
fn takes_leading_zeros() {
    assert_eq!(parse_config(b"0025,05"), config(1500, 300));
    assert_eq!(parse_config(b"0000000000000000000000000001,1"), config(60, 60));
}

#[test]
fn takes_zero_minutes() {
    assert_eq!(parse_config(b"0,0"), config(0, 0));
}

#[test]
fn takes_the_most_minutes_that_fit_in_seconds() {
    assert_eq!(parse_config(b"71582788,71582788"), config(4_294_967_280, 4_294_967_280));
}

#[test]
fn refuses_minutes_that_do_not_fit_in_seconds() {
    assert_eq!(parse_config(b"71582789,5"), Err(ConfigError::Parse));
    assert_eq!(parse_config(b"5,71582789"), Err(ConfigError::Parse));
    assert_eq!(parse_config(b"4294967295,5"), Err(ConfigError::Parse));
    assert_eq!(parse_config(b"4294967296,5"), Err(ConfigError::Parse));
    assert_eq!(parse_config(b"99999999999999999999,5"), Err(ConfigError::Parse));
}

#[test]
fn refuses_a_field_that_is_not_utf8() {
    assert_eq!(parse_config(&[0xff, b',', b'5']), Err(ConfigError::Utf8));
    assert_eq!(parse_config(&[b'2', b'5', b',', 0xc3]), Err(ConfigError::Utf8));
    assert_eq!(parse_config(&[b'1', 0x80, b',', b'5']), Err(ConfigError::Utf8));
}

#[test]
fn refuses_text_that_is_no_number_as_parse() {
    assert_eq!(parse_config("é,5".as_bytes()), Err(ConfigError::Parse));
    assert_eq!(parse_config("25,٥".as_bytes()), Err(ConfigError::Parse));
}

#[test]
fn judges_the_work_field_first() {
    assert_eq!(parse_config(&[b'x', b',', 0xff]), Err(ConfigError::Parse));
    assert_eq!(parse_config(&[0xff, b',', b'x']), Err(ConfigError::Utf8));
    assert_eq!(parse_config(&[b'1', b',', 0xff]), Err(ConfigError::Utf8));
}

#[test]
fn parse_minutes_gives_seconds() {
    assert_eq!(parse_minutes(b"25"), Some(1500));
    assert_eq!(parse_minutes(b"+1"), Some(60));
    assert_eq!(parse_minutes(b"0"), Some(0));
    assert_eq!(parse_minutes(b"71582788"), Some(4_294_967_280));
}

#[test]
fn parse_minutes_refuses_what_is_no_number_of_minutes() {
    assert_eq!(parse_minutes(b""), None);
    assert_eq!(parse_minutes(b"+"), None);
    assert_eq!(parse_minutes(b"1+"), None);
    assert_eq!(parse_minutes(b"12a"), None);
    assert_eq!(parse_minutes(b"71582789"), None);
    assert_eq!(parse_minutes(b"715827880"), None);
}

#[test]
fn parses_a_message_of_the_transport() {
    let message: heapless::Vec<u8, 32> = heapless::Vec::from_slice(b"10,2").unwrap();
    assert_eq!(parse_message(&message), config(600, 120));
}

#[test]
fn refuses_a_message_of_the_transport_without_comma() {
    let message: heapless::Vec<u8, 32> = heapless::Vec::from_slice(b"xyz").unwrap();
    assert_eq!(parse_message(&message), Err(ConfigError::InvalidFormat));
}

#[test]
fn reads_a_message_of_the_transport_to_its_end_and_no_further() {
    let mut message: heapless::Vec<u8, 32> = heapless::Vec::from_slice(b"25,59").unwrap();
    assert_eq!(parse_message(&message), config(1500, 3540));
    message.pop();
    assert_eq!(parse_message(&message), config(1500, 300));
    message.pop();
    assert_eq!(parse_message(&message), Err(ConfigError::Parse));
}

#[test]
fn parses_a_message_that_fills_the_transport() {
    let message: heapless::Vec<u8, 32> =
        heapless::Vec::from_slice(b"000000000000000000000000000025,5").unwrap();
    assert_eq!(message.len(), 32);
    assert_eq!(parse_message(&message), config(1500, 300));
}
