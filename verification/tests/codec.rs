use thermostat::dht11::{
    decode, decode_checked, lane_of_word, shift_in, to_signed, DecoderConfig, RawSample, Reading,
    SampleError, SensorState, DHT11, WARMUP_SAMPLES,
};

#[test]
fn decode_reads_temperature_and_humidity() {
    let raw = RawSample { lanes: [60, 0, 25, 0, 85] };
    assert_eq!(decode(&raw), Reading { temperature: 25, humidity: 60 });
}

#[test]
fn decode_ignores_the_checksum() {
    let raw = RawSample { lanes: [60, 0, 25, 0, 0] };
    assert_eq!(decode(&raw), Reading { temperature: 25, humidity: 60 });
}

#[test]
fn decode_reads_lanes_as_signed() {
    let raw = RawSample { lanes: [200, 0, 255, 0, 199] };
    assert_eq!(decode(&raw), Reading { temperature: -1, humidity: -56 });
}

#[test]
fn to_signed_covers_both_halves() {
    assert_eq!(to_signed(0), 0);
    assert_eq!(to_signed(127), 127);
    assert_eq!(to_signed(128), -128);
    assert_eq!(to_signed(255), -1);
}

#[test]
fn decode_checked_accepts_matching_checksum() {
    let raw = RawSample { lanes: [60, 0, 25, 0, 85] };
    assert_eq!(decode_checked(&raw), Ok(Reading { temperature: 25, humidity: 60 }));
}

#[test]
fn decode_checked_refuses_wrong_checksum() {
    let raw = RawSample { lanes: [60, 0, 25, 0, 86] };
    assert_eq!(decode_checked(&raw), Err(SampleError::ChecksumMismatch));
}

#[test]
fn decode_checked_refuses_blank_sample() {
    let raw = RawSample { lanes: [0, 0, 0, 0, 0] };
    assert_eq!(decode_checked(&raw), Err(SampleError::NoResponse));
}

#[test]
fn checksum_wraps_at_256() {
    let raw = RawSample { lanes: [200, 100, 30, 7, 81] };
    assert_eq!(raw.checksum(), 81);
    assert!(raw.checksum_ok());
    assert_eq!(decode_checked(&raw), Ok(Reading { temperature: 30, humidity: -56 }));
}

#[test]
fn checksum_of_zero_data_with_nonzero_checksum_is_a_mismatch() {
    let raw = RawSample { lanes: [0, 0, 0, 0, 1] };
    assert!(!raw.is_blank());
    assert_eq!(decode_checked(&raw), Err(SampleError::ChecksumMismatch));
}

#[test]
fn lane_is_low_byte_of_word() {
    assert_eq!(lane_of_word(0), 0);
    assert_eq!(lane_of_word(25), 25);
    assert_eq!(lane_of_word(0x0000_0119), 0x19);
    assert_eq!(lane_of_word(0xffff_ff3c), 0x3c);
}

#[test]
fn from_words_takes_low_bytes() {
    let raw = RawSample::from_words([60, 0x100, 25, 0xab00, 0x1255]);
    assert_eq!(raw.lanes, [60, 0, 25, 0, 0x55]);
}

#[test]
fn shift_in_moves_left_and_drops_the_top_bit() {
    assert_eq!(shift_in(0, true), 1);
    assert_eq!(shift_in(1, false), 2);
    assert_eq!(shift_in(0b0101_0101, true), 0b1010_1011);
    assert_eq!(shift_in(0b1000_0000, false), 0);
    assert_eq!(shift_in(0xff, true), 0xff);
}

fn bits_of(lanes: [u8; 5]) -> [bool; 40] {
    let mut bits = [false; 40];
    for k in 0..5 {
        for j in 0..8 {
            bits[8 * k + j] = lanes[k] & (0x80 >> j) != 0;
        }
    }
    bits
}

#[test]
fn from_bits_puts_first_bit_on_top() {
    let mut bits = [false; 40];
    bits[0] = true;
    bits[15] = true;
    let raw = RawSample::from_bits(&bits);
    assert_eq!(raw.lanes, [0x80, 0x01, 0, 0, 0]);
}

#[test]
fn from_bits_rebuilds_a_sample() {
    let lanes = [60, 0, 25, 0, 85];
    let raw = RawSample::from_bits(&bits_of(lanes));
    assert_eq!(raw.lanes, lanes);
    assert_eq!(decode_checked(&raw), Ok(Reading { temperature: 25, humidity: 60 }));
}

#[test]
fn from_bits_and_from_words_agree() {
    let lanes = [0xa5, 0x3c, 0xff, 0x01, 0x80];
    let by_bits = RawSample::from_bits(&bits_of(lanes));
    let by_words = RawSample::from_words([0xa5, 0x3c, 0xff, 0x01, 0x80]);
    assert_eq!(by_bits.lanes, by_words.lanes);
}

#[test]
fn decoder_setup_for_the_sensor() {
    let config = DecoderConfig::dht11();
    assert_eq!(config.clock_divider, 125);
    assert_eq!(config.bits_per_lane, 8);
    assert!(config.auto_push);
    assert!(config.shift_left);
    assert!(config.pull_up);
}

#[test]
fn sensor_starts_with_nothing_remembered() {
    let sensor = DHT11::new();
    assert_eq!(
        sensor.state(),
        SensorState { last_good: None, stale: false, checksum_errors: 0, settling: WARMUP_SAMPLES }
    );
    assert_eq!(sensor.last_reading(), None);
    assert!(!sensor.settled());
    assert_eq!(WARMUP_SAMPLES, 2);
}

#[test]
fn sensor_keeps_a_good_reading() {
    let mut sensor = DHT11::new();
    let result = sensor.get_temperature_humidity(Some([60, 0, 25, 0, 85]));
    assert_eq!(result, Ok(Reading { temperature: 25, humidity: 60 }));
    assert_eq!(sensor.last_reading(), Some(Reading { temperature: 25, humidity: 60 }));
    assert_eq!(sensor.state().settling, 1);
    assert!(!sensor.state().stale);
}

#[test]
fn sensor_reports_silence_and_keeps_the_last_reading() {
    let mut sensor = DHT11::new();
    assert!(sensor.get_temperature_humidity(Some([60, 0, 25, 0, 85])).is_ok());
    assert_eq!(sensor.get_temperature_humidity(None), Err(SampleError::NoResponse));
    assert_eq!(sensor.last_reading(), Some(Reading { temperature: 25, humidity: 60 }));
    assert!(sensor.state().stale);
    assert_eq!(sensor.state().checksum_errors, 0);
    assert_eq!(sensor.get_temperature_humidity(Some([0; 5])), Err(SampleError::NoResponse));
    assert_eq!(sensor.last_reading(), Some(Reading { temperature: 25, humidity: 60 }));
}

#[test]
fn sensor_counts_checksum_failures_and_keeps_the_last_reading() {
    let mut sensor = DHT11::new();
    assert!(sensor.get_temperature_humidity(Some([60, 0, 25, 0, 85])).is_ok());
    assert_eq!(
        sensor.get_temperature_humidity(Some([61, 0, 25, 0, 85])),
        Err(SampleError::ChecksumMismatch)
    );
    assert_eq!(
        sensor.get_temperature_humidity(Some([60, 0, 26, 0, 85])),
        Err(SampleError::ChecksumMismatch)
    );
    assert_eq!(sensor.state().checksum_errors, 2);
    assert!(sensor.state().stale);
    assert_eq!(sensor.last_reading(), Some(Reading { temperature: 25, humidity: 60 }));
    assert!(sensor.get_temperature_humidity(Some([40, 0, 21, 0, 61])).is_ok());
    assert!(!sensor.state().stale);
    assert_eq!(sensor.state().checksum_errors, 2);
    assert_eq!(sensor.last_reading(), Some(Reading { temperature: 21, humidity: 40 }));
}

#[test]
fn sensor_settles_after_the_warmup_samples() {
    let mut sensor = DHT11::new();
    assert!(!sensor.settled());
    let _ = sensor.get_temperature_humidity(None);
    assert!(!sensor.settled());
    let _ = sensor.get_temperature_humidity(Some([60, 0, 25, 0, 85]));
    assert!(sensor.settled());
    let _ = sensor.get_temperature_humidity(Some([60, 0, 25, 0, 85]));
    assert!(sensor.settled());
    assert_eq!(sensor.state().settling, 0);
}

#[test]
fn get_temperature_hands_out_lane_two() {
    let mut sensor = DHT11::new();
    assert_eq!(sensor.get_temperature(Some([60, 0, 25, 0, 85])), Ok(25));
    assert_eq!(sensor.get_temperature(Some([60, 0, 25, 0, 84])), Err(SampleError::ChecksumMismatch));
    assert_eq!(sensor.get_temperature(None), Err(SampleError::NoResponse));
    assert_eq!(sensor.get_temperature(Some([0x13c, 0x200, 0xfe, 0, 0x3a])), Ok(-2));
    assert_eq!(sensor.last_reading(), Some(Reading { temperature: -2, humidity: 60 }));
}
