use microbit_pomodoro::record::{config_or_default, decode, encode, RECORD_SIZE};
use microbit_pomodoro::types::TimerConfig;

#[test]
fn a_record_has_16_bytes() {
    assert_eq!(RECORD_SIZE, 16);
}

#[test]
fn round_trip_of_600_and_120() {
    let config = TimerConfig { work_time: 600, rest_time: 120 };
    let record = encode(&config).unwrap();
    assert_eq!(decode(record), Some(config));
}

#[test]
fn record_of_600_and_120_is_a_cobs_frame_and_zeros() {
    let config = TimerConfig { work_time: 600, rest_time: 120 };
    let record = encode(&config).unwrap();
    assert_eq!(record, [0x04, 0xd8, 0x04, 0x78, 0, 0, 0, 0, 0, 0, 0, 0, 0, 0, 0, 0]);
}

#[test]
fn record_of_the_default_config() {
    let record = encode(&TimerConfig::default()).unwrap();
    assert_eq!(record, [0x05, 0xdc, 0x0b, 0xac, 0x02, 0, 0, 0, 0, 0, 0, 0, 0, 0, 0, 0]);
    assert_eq!(decode(record), Some(TimerConfig { work_time: 1500, rest_time: 300 }));
}

#[test]
fn record_of_zero_intervals_holds_no_zero_before_its_end() {
    let config = TimerConfig { work_time: 0, rest_time: 0 };
    let record = encode(&config).unwrap();
    assert_eq!(record, [0x01, 0x01, 0x01, 0, 0, 0, 0, 0, 0, 0, 0, 0, 0, 0, 0, 0]);
    assert_eq!(decode(record), Some(config));
}

#[test]
fn the_longest_record_fits() {
    let config = TimerConfig { work_time: u32::MAX, rest_time: u32::MAX };
    let record = encode(&config).unwrap();
    assert_eq!(
        record,
        [0x0b, 0xff, 0xff, 0xff, 0xff, 0x0f, 0xff, 0xff, 0xff, 0xff, 0x0f, 0, 0, 0, 0, 0]
    );
    assert_eq!(decode(record), Some(config));
}

#[test]
fn round_trip_of_many_configs() {
    let times = [0u32, 1, 59, 60, 127, 128, 255, 256, 300, 1500, 16383, 16384, 65535, 1 << 21, 1 << 28, u32::MAX];
    for work_time in times {
        for rest_time in times {
            let config = TimerConfig { work_time, rest_time };
            let record = encode(&config).unwrap();
            assert_eq!(decode(record), Some(config));
        }
    }
}

#[test]
fn work_and_rest_are_not_swapped() {
    let record = encode(&TimerConfig { work_time: 1, rest_time: 2 }).unwrap();
    assert_eq!(record[..4], [0x03, 0x01, 0x02, 0x00]);
    assert_eq!(decode(record), Some(TimerConfig { work_time: 1, rest_time: 2 }));
}

#[test]
fn erased_storage_does_not_decode() {
    assert_eq!(decode([0xff; RECORD_SIZE]), None);
}

#[test]
fn zeroed_storage_does_not_decode() {
    assert_eq!(decode([0; RECORD_SIZE]), None);
}

#[test]
fn a_frame_cut_short_does_not_decode() {
    let mut record = encode(&TimerConfig { work_time: 600, rest_time: 120 }).unwrap();
    record[2] = 0;
    assert_eq!(decode(record), None);
}

#[test]
fn a_frame_with_a_wrong_length_byte_does_not_decode() {
    let mut record = encode(&TimerConfig { work_time: 600, rest_time: 120 }).unwrap();
    record[0] = 0x09;
    assert_eq!(decode(record), None);
}

#[test]
fn a_frame_that_lacks_a_number_does_not_decode() {
    let mut record = [0u8; RECORD_SIZE];
    record[0] = 0x02;
    record[1] = 0x05;
    assert_eq!(decode(record), None);
}

#[test]
fn a_number_that_never_ends_does_not_decode() {
    let mut record = [0u8; RECORD_SIZE];
    record[0] = 0x08;
    for byte in record[1..8].iter_mut() {
        *byte = 0xff;
    }
    assert_eq!(decode(record), None);
}

#[test]
fn bytes_behind_the_frame_do_not_matter() {
    let mut record = encode(&TimerConfig { work_time: 600, rest_time: 120 }).unwrap();
    for byte in record[5..].iter_mut() {
        *byte = 0xaa;
    }
    assert_eq!(decode(record), Some(TimerConfig { work_time: 600, rest_time: 120 }));
}

#[test]
fn decoding_leaves_the_record_as_it_was() {
    let record = encode(&TimerConfig { work_time: 600, rest_time: 120 }).unwrap();
    let before = record;
    assert_eq!(decode(record), Some(TimerConfig { work_time: 600, rest_time: 120 }));
    assert_eq!(record, before);
}

#[test]
fn a_stored_config_is_taken() {
    let config = TimerConfig { work_time: 600, rest_time: 120 };
    assert_eq!(config_or_default(Some(config)), config);
}

#[test]
fn no_stored_config_means_the_default() {
    assert_eq!(config_or_default(None), TimerConfig { work_time: 1500, rest_time: 300 });
}

#[test]
fn an_erased_record_means_the_default() {
    assert_eq!(
        config_or_default(decode([0xff; RECORD_SIZE])),
        TimerConfig { work_time: 1500, rest_time: 300 }
    );
}

#[test]
fn a_corrupted_record_means_the_default() {
    let mut record = encode(&TimerConfig { work_time: 600, rest_time: 120 }).unwrap();
    record[0] = 0xff;
    assert_eq!(config_or_default(decode(record)), TimerConfig { work_time: 1500, rest_time: 300 });
}
