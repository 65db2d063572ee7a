use ull_drivers::bus::{BusOp, ErrorKind, Exchange, I2cFailure, NoAcknowledgeSource, Outcome};
use ull_drivers::sht3x::types::{parse_raw_measurement, parse_raw_temperature};
use ull_drivers::sht3x::{
    crc8, Address, DataWord, Error, FixedPointMeasurement, PeriodicRate, RawMeasurement,
    Repeatability, Sht3x, Status,
};

#[derive(Debug, Copy, Clone, Eq, PartialEq)]
struct MockI2cError(ErrorKind);

impl MockI2cError {
    fn other() -> Self {
        Self(ErrorKind::Other)
    }

    fn no_ack_data() -> Self {
        Self(ErrorKind::NoAcknowledge(NoAcknowledgeSource::Data))
    }

    fn no_ack_read_header() -> Self {
        Self(ErrorKind::NoAcknowledge(NoAcknowledgeSource::Address))
    }
}

#[derive(Debug)]
enum ReadResponse {
    Data(Vec<u8>),
    Error(MockI2cError),
}

#[derive(Debug, PartialEq, Eq)]
struct Write {
    address: u8,
    bytes: Vec<u8>,
}

#[derive(Debug)]
struct MockI2c {
    writes: Vec<Write>,
    reads: Vec<ReadResponse>,
    fail_writes: Option<MockI2cError>,
}

impl MockI2c {
    fn new(reads: Vec<Vec<u8>>) -> Self {
        Self {
            writes: Vec::new(),
            reads: reads.into_iter().map(ReadResponse::Data).collect(),
            fail_writes: None,
        }
    }

    fn with_read_responses(reads: Vec<ReadResponse>) -> Self {
        Self {
            writes: Vec::new(),
            reads,
            fail_writes: None,
        }
    }

    fn failing_writes(error: MockI2cError) -> Self {
        Self {
            writes: Vec::new(),
            reads: Vec::new(),
            fail_writes: Some(error),
        }
    }
}

#[derive(Debug, Default)]
struct MockDelay {
    delayed_ms: Vec<u32>,
}

type Failure = I2cFailure<MockI2cError>;

/// Performs every step of a planned exchange on the mock bus and delay.
fn perform(ex: &mut Exchange<Failure>, i2c: &mut MockI2c, delay: &mut MockDelay) {
    while let Some(op) = ex.next_op().cloned() {
        match op {
            BusOp::Write { address, bytes } => match i2c.fail_writes {
                Some(error) => ex.fail(I2cFailure { error, kind: error.0 }),
                None => {
                    i2c.writes.push(Write { address, bytes });
                    ex.succeed();
                }
            },
            BusOp::Read { len, .. } => match i2c.reads.remove(0) {
                ReadResponse::Data(data) => {
                    assert_eq!(data.len(), len);
                    ex.succeed_read(data);
                }
                ReadResponse::Error(error) => ex.fail(I2cFailure { error, kind: error.0 }),
            },
            BusOp::DelayMs { ms } => {
                delay.delayed_ms.push(ms);
                ex.succeed();
            }
            BusOp::DelayUs { .. } => ex.succeed(),
            BusOp::SetResetPin { .. } => panic!("the sensor has no reset pin"),
        }
    }
    assert!(ex.is_done());
}

fn run<MODE>(sensor: &mut Sht3x<MockI2c, MODE>, ex: &mut Exchange<Failure>, delay: &mut MockDelay) {
    perform(ex, sensor.bus_mut(), delay);
}

fn word_bytes(word: u16) -> Vec<u8> {
    let [msb, lsb] = word.to_be_bytes();
    Vec::from([msb, lsb, crc8([msb, lsb])])
}

fn measurement_bytes(temperature: u16, humidity: u16) -> Vec<u8> {
    let mut bytes = word_bytes(temperature);
    bytes.extend(word_bytes(humidity));
    bytes
}

fn six(bytes: Vec<u8>) -> [u8; 6] {
    bytes.try_into().unwrap()
}

/// Puts a fresh sensor into periodic mode and forgets the traffic that took.
fn periodic_sensor(i2c: MockI2c) -> Sht3x<MockI2c, ull_drivers::sht3x::PeriodicMode> {
    let mut sensor = Sht3x::new(i2c);
    let mut delay = MockDelay::default();
    let mut ex = sensor.start_periodic_exchange(Repeatability::High, PeriodicRate::Mps1);
    run(&mut sensor, &mut ex, &mut delay);
    let mut sensor = sensor.start_periodic(Repeatability::High, PeriodicRate::Mps1, ex).unwrap();
    sensor.bus_mut().writes.clear();
    sensor
}

#[test]
fn crc_matches_datasheet_example() {
    assert_eq!(crc8([0xBE, 0xEF]), 0x92);
}

#[test]
fn converts_units_with_integer_only_math() {
    let raw = RawMeasurement {
        temperature: 0,
        humidity: 0,
    };

    assert_eq!(raw.temperature_millicelsius(), -45_000);
    assert_eq!(raw.temperature_millifahrenheit(), -49_000);
    assert_eq!(raw.relative_humidity_hundredths(), 0);
    assert_eq!(
        raw.to_fixed_point(),
        FixedPointMeasurement {
            temperature_millicelsius: -45_000,
            relative_humidity_hundredths: 0,
        }
    );

    let raw = RawMeasurement {
        temperature: 0xFFFF,
        humidity: 0xFFFF,
    };

    assert_eq!(raw.temperature_millicelsius(), 130_000);
    assert_eq!(raw.temperature_millifahrenheit(), 266_000);
    assert_eq!(raw.relative_humidity_hundredths(), 10_000);
}

#[test]
fn rejects_bad_temperature_crc() {
    let mut bytes = measurement_bytes(0x1234, 0x5678);
    bytes[2] ^= 0x01;

    assert_eq!(
        parse_raw_measurement::<MockI2cError>(six(bytes)),
        Err(Error::Crc {
            word: DataWord::Temperature,
            expected: crc8([0x12, 0x34]),
            actual: crc8([0x12, 0x34]) ^ 0x01,
        })
    );
}

#[test]
fn rejects_bad_humidity_crc() {
    let mut bytes = measurement_bytes(0x1234, 0x5678);
    bytes[5] ^= 0x01;

    assert_eq!(
        parse_raw_measurement::<MockI2cError>(six(bytes)),
        Err(Error::Crc {
            word: DataWord::Humidity,
            expected: crc8([0x56, 0x78]),
            actual: crc8([0x56, 0x78]) ^ 0x01,
        })
    );
}

#[test]
fn rejects_bad_status_crc() {
    let status = 0x1234u16;
    let [msb, lsb] = status.to_be_bytes();
    let i2c = MockI2c::with_read_responses(Vec::from([ReadResponse::Data(Vec::from([
        msb,
        lsb,
        crc8([msb, lsb]) ^ 0x01,
    ]))]));
    let mut sensor = Sht3x::new(i2c);
    let mut delay = MockDelay::default();

    let mut ex = sensor.status_exchange();
    run(&mut sensor, &mut ex, &mut delay);

    assert_eq!(
        sensor.status(ex),
        Err(Error::Crc {
            word: DataWord::Status,
            expected: crc8([msb, lsb]),
            actual: crc8([msb, lsb]) ^ 0x01,
        })
    );
}

#[test]
fn formats_crc_errors_for_logs() {
    let error = Error::<MockI2cError>::Crc {
        word: DataWord::Humidity,
        expected: 0x92,
        actual: 0x93,
    };

    assert_eq!(
        error.message(),
        "CRC mismatch for Humidity: expected 0x92, got 0x93"
    );
}

#[test]
fn measures_single_shot_high_repeatability_without_clock_stretching() {
    let i2c = MockI2c::new(Vec::from([measurement_bytes(0x6666, 0x8000)]));
    let mut sensor = Sht3x::new(i2c);
    let mut delay = MockDelay::default();

    let mut ex = sensor.measure_raw_exchange(Repeatability::High);
    run(&mut sensor, &mut ex, &mut delay);
    let raw = sensor.measure_raw(Repeatability::High, ex).unwrap();
    let i2c = sensor.release();

    assert_eq!(raw.temperature, 0x6666);
    assert_eq!(raw.humidity, 0x8000);
    assert_eq!(delay.delayed_ms, Vec::from([15]));
    assert_eq!(i2c.writes.len(), 1);
    assert_eq!(i2c.writes[0].address, 0x44);
    assert_eq!(i2c.writes[0].bytes, Vec::from([0x24, 0x00]));
}

#[test]
fn measures_temperature_only_with_short_read() {
    let i2c = MockI2c::new(Vec::from([word_bytes(0x6666)]));
    let mut sensor = Sht3x::new(i2c);
    let mut delay = MockDelay::default();

    let mut ex = sensor.measure_temperature_raw_exchange(Repeatability::High);
    run(&mut sensor, &mut ex, &mut delay);
    let raw = sensor.measure_temperature_raw(Repeatability::High, ex).unwrap();
    let i2c = sensor.release();

    assert_eq!(raw, 0x6666);
    assert_eq!(delay.delayed_ms, Vec::from([15]));
    assert_eq!(i2c.writes[0].bytes, Vec::from([0x24, 0x00]));
}

#[test]
fn low_voltage_measurement_uses_longer_delay() {
    let i2c = MockI2c::new(Vec::from([measurement_bytes(0x6666, 0x8000)]));
    let mut sensor = Sht3x::new(i2c);
    let mut delay = MockDelay::default();

    let mut ex = sensor.measure_raw_low_voltage_exchange(Repeatability::Medium);
    run(&mut sensor, &mut ex, &mut delay);
    sensor.measure_raw_low_voltage(Repeatability::Medium, ex).unwrap();

    assert_eq!(delay.delayed_ms, Vec::from([7]));
}

#[test]
fn repeatability_delay_tables_match_datasheet_maxima() {
    assert_eq!(Repeatability::Low.delay_ms(), 4);
    assert_eq!(Repeatability::Medium.delay_ms(), 6);
    assert_eq!(Repeatability::High.delay_ms(), 15);

    assert_eq!(Repeatability::Low.low_voltage_delay_ms(), 5);
    assert_eq!(Repeatability::Medium.low_voltage_delay_ms(), 7);
    assert_eq!(Repeatability::High.low_voltage_delay_ms(), 16);
}

#[test]
fn periodic_commands_match_datasheet_table() {
    let expected = [
        (PeriodicRate::Mps0_5, Repeatability::High, 0x2032),
        (PeriodicRate::Mps0_5, Repeatability::Medium, 0x2024),
        (PeriodicRate::Mps0_5, Repeatability::Low, 0x202F),
        (PeriodicRate::Mps1, Repeatability::High, 0x2130),
        (PeriodicRate::Mps1, Repeatability::Medium, 0x2126),
        (PeriodicRate::Mps1, Repeatability::Low, 0x212D),
        (PeriodicRate::Mps2, Repeatability::High, 0x2236),
        (PeriodicRate::Mps2, Repeatability::Medium, 0x2220),
        (PeriodicRate::Mps2, Repeatability::Low, 0x222B),
        (PeriodicRate::Mps4, Repeatability::High, 0x2334),
        (PeriodicRate::Mps4, Repeatability::Medium, 0x2322),
        (PeriodicRate::Mps4, Repeatability::Low, 0x2329),
        (PeriodicRate::Mps10, Repeatability::High, 0x2737),
        (PeriodicRate::Mps10, Repeatability::Medium, 0x2721),
        (PeriodicRate::Mps10, Repeatability::Low, 0x272A),
    ];

    for (rate, repeatability, command) in expected {
        assert_eq!(rate.command(repeatability), command);
    }
}

#[test]
fn uses_alternate_address_and_periodic_commands() {
    let i2c = MockI2c::new(Vec::from([measurement_bytes(0x1111, 0x2222)]));
    let mut sensor = Sht3x::with_address(i2c, Address::alternate_address());
    let mut delay = MockDelay::default();

    let mut ex = sensor.start_periodic_exchange(Repeatability::Medium, PeriodicRate::Mps4);
    run(&mut sensor, &mut ex, &mut delay);
    let mut sensor = sensor.start_periodic(Repeatability::Medium, PeriodicRate::Mps4, ex).unwrap();
    let mut ex = sensor.fetch_raw_exchange();
    run(&mut sensor, &mut ex, &mut delay);
    let raw = sensor.fetch_raw(ex).unwrap();
    let i2c = sensor.release();

    assert_eq!(raw.temperature, 0x1111);
    assert_eq!(raw.humidity, 0x2222);
    assert_eq!(i2c.writes[0].address, 0x45);
    assert_eq!(i2c.writes[0].bytes, Vec::from([0x23, 0x22]));
    assert_eq!(i2c.writes[1].bytes, Vec::from([0xE0, 0x00]));
}

#[test]
fn fetch_maps_not_ready_nack() {
    let i2c = MockI2c::with_read_responses(Vec::from([ReadResponse::Error(
        MockI2cError::no_ack_data(),
    )]));
    let mut sensor = periodic_sensor(i2c);
    let mut delay = MockDelay::default();

    let mut ex = sensor.fetch_raw_exchange();
    run(&mut sensor, &mut ex, &mut delay);
    assert_eq!(sensor.fetch_raw(ex), Err(Error::NotReady));

    let i2c = sensor.release();
    assert_eq!(i2c.writes[0].bytes, Vec::from([0xE0, 0x00]));
}

#[test]
fn fetch_propagates_other_i2c_error() {
    let i2c = MockI2c::with_read_responses(Vec::from([ReadResponse::Error(MockI2cError::other())]));
    let mut sensor = periodic_sensor(i2c);
    let mut delay = MockDelay::default();

    let mut ex = sensor.fetch_raw_exchange();
    run(&mut sensor, &mut ex, &mut delay);
    assert_eq!(sensor.fetch_raw(ex), Err(Error::I2c(MockI2cError::other())));
}

#[test]
fn configuration_wait_variants_enforce_command_gap() {
    let i2c = MockI2c::new(Vec::new());
    let mut sensor = Sht3x::new(i2c);
    let mut delay = MockDelay::default();

    let mut ex = sensor.clear_status_and_wait_exchange();
    run(&mut sensor, &mut ex, &mut delay);
    sensor.clear_status_and_wait(ex).unwrap();
    let mut ex = sensor.set_heater_and_wait_exchange(true);
    run(&mut sensor, &mut ex, &mut delay);
    sensor.set_heater_and_wait(true, ex).unwrap();
    let mut ex = sensor.start_art_and_wait_exchange();
    run(&mut sensor, &mut ex, &mut delay);
    let sensor = sensor.start_art_and_wait(ex).unwrap();
    // The driver type follows the sensor into ART mode; the same bus goes on
    // with a single-shot driver for the periodic start.
    let mut sensor = Sht3x::new(sensor.release());
    let mut ex = sensor.start_periodic_and_wait_exchange(Repeatability::Low, PeriodicRate::Mps1);
    run(&mut sensor, &mut ex, &mut delay);
    let sensor = sensor.start_periodic_and_wait(Repeatability::Low, PeriodicRate::Mps1, ex).unwrap();
    let i2c = sensor.release();

    assert_eq!(delay.delayed_ms, Vec::from([1, 1, 1, 1]));
    assert_eq!(i2c.writes[0].bytes, Vec::from([0x30, 0x41]));
    assert_eq!(i2c.writes[1].bytes, Vec::from([0x30, 0x6D]));
    assert_eq!(i2c.writes[2].bytes, Vec::from([0x2B, 0x32]));
    assert_eq!(i2c.writes[3].bytes, Vec::from([0x21, 0x2D]));
}

#[test]
fn reads_status_and_exposes_bits() {
    let status = 0b1010_0000_0001_0011u16;
    let [msb, lsb] = status.to_be_bytes();
    let i2c = MockI2c::new(Vec::from([Vec::from([msb, lsb, crc8([msb, lsb])])]));
    let mut sensor = Sht3x::new(i2c);
    let mut delay = MockDelay::default();

    let mut ex = sensor.status_exchange();
    run(&mut sensor, &mut ex, &mut delay);
    let status = sensor.status(ex).unwrap();

    assert!(status.alert_pending());
    assert!(status.heater_enabled());
    assert!(status.reset_detected());
    assert!(status.command_failed());
    assert!(status.write_checksum_failed());
    assert!(!status.humidity_alert());
}

#[test]
fn sends_general_call_reset_to_address_zero() {
    let i2c = MockI2c::new(Vec::new());
    let mut sensor = Sht3x::new(i2c);
    let mut delay = MockDelay::default();

    let mut ex = sensor.general_call_reset_exchange();
    run(&mut sensor, &mut ex, &mut delay);
    sensor.general_call_reset(ex).unwrap();
    let i2c = sensor.release();

    assert_eq!(i2c.writes[0].address, 0x00);
    assert_eq!(i2c.writes[0].bytes, Vec::from([0x06]));
    assert_eq!(delay.delayed_ms, Vec::from([2]));
}

#[test]
fn async_measure_uses_single_shot_delay_and_reads_measurement() {
    let i2c = MockI2c::new(Vec::from([measurement_bytes(0x6666, 0x8000)]));
    let mut sensor = Sht3x::new(i2c);
    let mut delay = MockDelay::default();

    let mut ex = sensor.measure_raw_exchange(Repeatability::High);
    run(&mut sensor, &mut ex, &mut delay);
    let raw = sensor.measure_raw(Repeatability::High, ex).unwrap();
    let i2c = sensor.release();

    assert_eq!(raw.temperature, 0x6666);
    assert_eq!(raw.humidity, 0x8000);
    assert_eq!(delay.delayed_ms, Vec::from([15]));
    assert_eq!(i2c.writes[0].bytes, Vec::from([0x24, 0x00]));
}

#[test]
fn async_periodic_commands_match_sync_sequence() {
    let i2c = MockI2c::new(Vec::from([measurement_bytes(0x1111, 0x2222)]));
    let mut sensor = Sht3x::with_address(i2c, Address::alternate_address());
    let mut delay = MockDelay::default();

    let mut ex = sensor.start_periodic_and_wait_exchange(Repeatability::Medium, PeriodicRate::Mps4);
    run(&mut sensor, &mut ex, &mut delay);
    let mut sensor = sensor.start_periodic_and_wait(Repeatability::Medium, PeriodicRate::Mps4, ex).unwrap();
    let mut ex = sensor.fetch_raw_exchange();
    run(&mut sensor, &mut ex, &mut delay);
    let raw = sensor.fetch_raw(ex).unwrap();
    let i2c = sensor.release();

    assert_eq!(raw.temperature, 0x1111);
    assert_eq!(raw.humidity, 0x2222);
    assert_eq!(delay.delayed_ms, Vec::from([1]));
    assert_eq!(i2c.writes[0].address, 0x45);
    assert_eq!(i2c.writes[0].bytes, Vec::from([0x23, 0x22]));
    assert_eq!(i2c.writes[1].bytes, Vec::from([0xE0, 0x00]));
}

#[test]
fn async_general_call_reset_waits_and_uses_address_zero() {
    let i2c = MockI2c::new(Vec::new());
    let mut sensor = Sht3x::new(i2c);
    let mut delay = MockDelay::default();

    let mut ex = sensor.general_call_reset_exchange();
    run(&mut sensor, &mut ex, &mut delay);
    sensor.general_call_reset(ex).unwrap();
    let i2c = sensor.release();

    assert_eq!(i2c.writes[0].address, 0x00);
    assert_eq!(i2c.writes[0].bytes, Vec::from([0x06]));
    assert_eq!(delay.delayed_ms, Vec::from([2]));
}

#[test]
fn async_status_reads_and_validates_crc() {
    let status = 0b1010_0000_0001_0011u16;
    let [msb, lsb] = status.to_be_bytes();
    let i2c = MockI2c::new(Vec::from([Vec::from([msb, lsb, crc8([msb, lsb])])]));
    let mut sensor = Sht3x::new(i2c);
    let mut delay = MockDelay::default();

    let mut ex = sensor.status_exchange();
    run(&mut sensor, &mut ex, &mut delay);
    let status = sensor.status(ex).unwrap();

    assert!(status.alert_pending());
    assert!(status.heater_enabled());
    assert!(status.reset_detected());
    assert!(status.command_failed());
    assert!(status.write_checksum_failed());
    assert!(!status.humidity_alert());
}

#[test]
fn async_fetch_maps_not_ready_nack() {
    let i2c = MockI2c::with_read_responses(Vec::from([ReadResponse::Error(
        MockI2cError::no_ack_data(),
    )]));
    let mut sensor = periodic_sensor(i2c);
    let mut delay = MockDelay::default();

    let mut ex = sensor.fetch_raw_exchange();
    run(&mut sensor, &mut ex, &mut delay);
    assert_eq!(sensor.fetch_raw(ex), Err(Error::NotReady));

    let i2c = sensor.release();
    assert_eq!(i2c.writes[0].bytes, Vec::from([0xE0, 0x00]));
}

#[test]
fn async_fetch_propagates_other_i2c_error() {
    let i2c = MockI2c::with_read_responses(Vec::from([ReadResponse::Error(MockI2cError::other())]));
    let mut sensor = periodic_sensor(i2c);
    let mut delay = MockDelay::default();

    let mut ex = sensor.fetch_raw_exchange();
    run(&mut sensor, &mut ex, &mut delay);
    assert_eq!(sensor.fetch_raw(ex), Err(Error::I2c(MockI2cError::other())));
}

#[test]
fn reset_and_break_commands_wait_long_enough() {
    let i2c = MockI2c::new(Vec::new());
    let mut sensor = periodic_sensor(i2c);
    let mut delay = MockDelay::default();

    let mut ex = sensor.stop_periodic_exchange();
    run(&mut sensor, &mut ex, &mut delay);
    let mut sensor = sensor.stop_periodic(ex).unwrap();
    let mut ex = sensor.soft_reset_exchange();
    run(&mut sensor, &mut ex, &mut delay);
    sensor.soft_reset(ex).unwrap();

    let i2c = sensor.release();
    assert_eq!(i2c.writes[0].bytes, Vec::from([0x30, 0x93]));
    assert_eq!(i2c.writes[1].bytes, Vec::from([0x30, 0xA2]));
    assert_eq!(delay.delayed_ms, Vec::from([1, 2]));
}

#[test]
fn custom_address_accepts_only_supported_sensor_addresses() {
    assert_eq!(Address::custom(0x44), Some(Address::default_address()));
    assert_eq!(Address::custom(0x45), Some(Address::alternate_address()));
    assert_eq!(Address::custom(0x00), None);
    assert_eq!(Address::custom(0x43), None);
    assert_eq!(Address::custom(0x46), None);
    assert_eq!(Address::custom(0x7F), None);
}

#[test]
fn address_default_is_sensor_default() {
    assert_eq!(Address::default(), Address::default_address());
    assert_eq!(Address::default().as_u8(), 0x44);
}

#[test]
fn driver_can_be_created_from_i2c_directly() {
    let sensor = Sht3x::from(MockI2c::new(Vec::new()));
    assert_eq!(sensor.address(), 0x44);
}

#[test]
fn raw_measurement_supports_fixed_point_conversion() {
    let i2c = MockI2c::new(Vec::from([measurement_bytes(0x6666, 0x6666)]));
    let mut sensor = Sht3x::new(i2c);
    let mut delay = MockDelay::default();

    let mut ex = sensor.measure_raw_exchange(Repeatability::Medium);
    run(&mut sensor, &mut ex, &mut delay);
    let raw = sensor.measure_raw(Repeatability::Medium, ex).unwrap();
    let i2c = sensor.release();

    assert_eq!(
        raw,
        RawMeasurement {
            temperature: 0x6666,
            humidity: 0x6666,
        }
    );
    assert_eq!(
        raw.to_fixed_point(),
        FixedPointMeasurement {
            temperature_millicelsius: 25_000,
            relative_humidity_hundredths: 4_000,
        }
    );
    assert_eq!(delay.delayed_ms, Vec::from([6]));
    assert_eq!(
        i2c.writes,
        Vec::from([Write {
            address: 0x44,
            bytes: Vec::from([0x24, 0x0B]),
        }])
    );
}

#[test]
fn periodic_fetch_maps_read_header_nack_to_not_ready() {
    let i2c = MockI2c::with_read_responses(Vec::from([ReadResponse::Error(
        MockI2cError::no_ack_read_header(),
    )]));
    let mut sensor = Sht3x::new(i2c);
    let mut delay = MockDelay::default();
    let mut ex = sensor.start_periodic_exchange(Repeatability::Low, PeriodicRate::Mps1);
    run(&mut sensor, &mut ex, &mut delay);
    let mut sensor = sensor.start_periodic(Repeatability::Low, PeriodicRate::Mps1, ex).unwrap();

    let mut ex = sensor.fetch_raw_exchange();
    run(&mut sensor, &mut ex, &mut delay);
    assert_eq!(sensor.fetch_raw(ex), Err(Error::NotReady));

    let i2c = sensor.release();
    assert_eq!(
        i2c.writes,
        Vec::from([
            Write {
                address: 0x44,
                bytes: Vec::from([0x21, 0x2D]),
            },
            Write {
                address: 0x44,
                bytes: Vec::from([0xE0, 0x00]),
            },
        ])
    );
}

// Behaviour of the library beyond the scenarios above.

#[test]
fn periodic_round_trip_returns_single_shot_driver() {
    let i2c = MockI2c::new(Vec::from([
        measurement_bytes(0x6666, 0x6666),
        measurement_bytes(0x6666, 0x6666),
    ]));
    let mut delay = MockDelay::default();

    let mut sensor = Sht3x::new(i2c);
    let mut ex = sensor.start_periodic_and_wait_exchange(Repeatability::Low, PeriodicRate::Mps1);
    run(&mut sensor, &mut ex, &mut delay);
    let mut sensor = sensor.start_periodic_and_wait(Repeatability::Low, PeriodicRate::Mps1, ex).unwrap();
    let mut ex = sensor.fetch_raw_exchange();
    run(&mut sensor, &mut ex, &mut delay);
    let periodic = sensor.fetch_raw(ex).unwrap();
    let mut ex = sensor.stop_periodic_exchange();
    run(&mut sensor, &mut ex, &mut delay);
    let mut sensor = sensor.stop_periodic(ex).unwrap();
    let mut ex = sensor.measure_raw_exchange(Repeatability::Low);
    run(&mut sensor, &mut ex, &mut delay);
    let single_shot = sensor.measure_raw(Repeatability::Low, ex).unwrap();
    let i2c = sensor.release();

    assert_eq!(periodic.to_fixed_point().temperature_millicelsius, 25_000);
    assert_eq!(single_shot.to_fixed_point().relative_humidity_hundredths, 4_000);
    assert_eq!(delay.delayed_ms, Vec::from([1, 1, 4]));
    let written: Vec<Vec<u8>> = i2c.writes.iter().map(|w| w.bytes.clone()).collect();
    assert_eq!(
        written,
        Vec::from([
            Vec::from([0x21, 0x2D]),
            Vec::from([0xE0, 0x00]),
            Vec::from([0x30, 0x93]),
            Vec::from([0x24, 0x16]),
        ])
    );
}

#[test]
fn art_mode_fetches_and_stops() {
    let i2c = MockI2c::new(Vec::from([measurement_bytes(0x0102, 0x0304)]));
    let mut sensor = Sht3x::new(i2c);
    let mut delay = MockDelay::default();

    let mut ex = sensor.start_art_exchange();
    run(&mut sensor, &mut ex, &mut delay);
    let mut sensor = sensor.start_art(ex).unwrap();
    let mut ex = sensor.fetch_raw_exchange();
    run(&mut sensor, &mut ex, &mut delay);
    let raw = sensor.fetch_raw(ex).unwrap();
    let mut ex = sensor.stop_periodic_exchange();
    run(&mut sensor, &mut ex, &mut delay);
    let sensor = sensor.stop_periodic(ex).unwrap();
    let i2c = sensor.release();

    assert_eq!(raw, RawMeasurement { temperature: 0x0102, humidity: 0x0304 });
    assert_eq!(delay.delayed_ms, Vec::from([1]));
    assert_eq!(i2c.writes[0].bytes, Vec::from([0x2B, 0x32]));
    assert_eq!(i2c.writes[1].bytes, Vec::from([0xE0, 0x00]));
    assert_eq!(i2c.writes[2].bytes, Vec::from([0x30, 0x93]));
}

#[test]
fn measurement_round_trips_through_its_checksums() {
    for (temperature, humidity) in [(0u16, 0u16), (0x1234, 0x5678), (0xFFFF, 0x8000), (0xBEEF, 1)] {
        assert_eq!(
            parse_raw_measurement::<MockI2cError>(six(measurement_bytes(temperature, humidity))),
            Ok(RawMeasurement { temperature, humidity })
        );
    }
    assert_eq!(
        parse_raw_temperature::<MockI2cError>(word_bytes(0xBEEF).try_into().unwrap()),
        Ok(0xBEEF)
    );
}

#[test]
fn fixed_point_formulas_give_exact_values() {
    let raw = RawMeasurement { temperature: 0x6666, humidity: 0x8000 };
    assert_eq!(raw.temperature_millicelsius(), 25_000);
    assert_eq!(raw.temperature_millifahrenheit(), 77_000);
    assert_eq!(raw.relative_humidity_hundredths(), 5_000);
    let raw = RawMeasurement { temperature: 1, humidity: 1 };
    assert_eq!(raw.temperature_millicelsius(), -44_998);
    assert_eq!(raw.relative_humidity_hundredths(), 0);
}

#[test]
fn clock_stretching_reads_without_delay() {
    let i2c = MockI2c::new(Vec::from([measurement_bytes(0x1000, 0x2000), word_bytes(0x3000)]));
    let mut sensor = Sht3x::new(i2c);
    let mut delay = MockDelay::default();

    let mut ex = sensor.measure_raw_with_clock_stretching_exchange(Repeatability::Medium);
    run(&mut sensor, &mut ex, &mut delay);
    let raw = sensor.measure_raw_with_clock_stretching(Repeatability::Medium, ex).unwrap();
    let mut ex = sensor.measure_temperature_raw_with_clock_stretching_exchange(Repeatability::Low);
    run(&mut sensor, &mut ex, &mut delay);
    let temperature = sensor.measure_temperature_raw_with_clock_stretching(Repeatability::Low, ex).unwrap();
    let i2c = sensor.release();

    assert_eq!(raw, RawMeasurement { temperature: 0x1000, humidity: 0x2000 });
    assert_eq!(temperature, 0x3000);
    assert!(delay.delayed_ms.is_empty());
    assert_eq!(i2c.writes[0].bytes, Vec::from([0x2C, 0x0D]));
    assert_eq!(i2c.writes[1].bytes, Vec::from([0x2C, 0x10]));
}

#[test]
fn temperature_in_millicelsius_and_low_voltage_temperature() {
    let i2c = MockI2c::new(Vec::from([word_bytes(0x6666), word_bytes(0xFFFF)]));
    let mut sensor = Sht3x::new(i2c);
    let mut delay = MockDelay::default();

    let mut ex = sensor.measure_temperature_raw_exchange(Repeatability::Low);
    run(&mut sensor, &mut ex, &mut delay);
    assert_eq!(sensor.measure_temperature_millicelsius(Repeatability::Low, ex), Ok(25_000));
    let mut ex = sensor.measure_temperature_raw_low_voltage_exchange(Repeatability::High);
    run(&mut sensor, &mut ex, &mut delay);
    assert_eq!(sensor.measure_temperature_raw_low_voltage(Repeatability::High, ex), Ok(0xFFFF));
    assert_eq!(delay.delayed_ms, Vec::from([4, 16]));
}

#[test]
fn write_failure_becomes_i2c_error_and_stops_the_exchange() {
    let error = MockI2cError(ErrorKind::Bus);
    let mut sensor = Sht3x::new(MockI2c::failing_writes(error));
    let mut delay = MockDelay::default();

    let mut ex = sensor.measure_raw_exchange(Repeatability::High);
    run(&mut sensor, &mut ex, &mut delay);
    assert_eq!(sensor.measure_raw(Repeatability::High, ex), Err(Error::I2c(error)));
    assert!(delay.delayed_ms.is_empty());

    let mut ex = sensor.set_heater_exchange(false);
    run(&mut sensor, &mut ex, &mut delay);
    assert_eq!(sensor.set_heater(false, ex), Err(Error::I2c(error)));
    let mut ex = sensor.clear_status_exchange();
    run(&mut sensor, &mut ex, &mut delay);
    assert_eq!(sensor.clear_status(ex), Err(Error::I2c(error)));
    let mut ex = sensor.start_periodic_exchange(Repeatability::High, PeriodicRate::Mps10);
    run(&mut sensor, &mut ex, &mut delay);
    let failed = sensor.start_periodic(Repeatability::High, PeriodicRate::Mps10, ex).unwrap_err();
    assert_eq!(*failed.error(), Error::I2c(error));
    let (sensor, error_back) = failed.into_parts();
    assert_eq!(error_back, Error::I2c(error));
    assert_eq!(sensor.address(), 0x44);
}

#[test]
fn failed_mode_changes_hand_the_driver_back() {
    let error = MockI2cError(ErrorKind::ArbitrationLoss);
    let mut sensor = periodic_sensor(MockI2c::new(Vec::from([measurement_bytes(0x0A0B, 0x0C0D)])));
    sensor.bus_mut().fail_writes = Some(error);
    let mut delay = MockDelay::default();

    let mut ex = sensor.stop_periodic_exchange();
    run(&mut sensor, &mut ex, &mut delay);
    let failed = sensor.stop_periodic(ex).unwrap_err();
    assert_eq!(*failed.error(), Error::I2c(error));
    assert!(delay.delayed_ms.is_empty());

    // Still in periodic mode: the next fetch works once the bus recovers.
    let (mut sensor, _) = failed.into_parts();
    sensor.bus_mut().fail_writes = None;
    let mut ex = sensor.fetch_raw_exchange();
    run(&mut sensor, &mut ex, &mut delay);
    assert_eq!(sensor.fetch_raw(ex), Ok(RawMeasurement { temperature: 0x0A0B, humidity: 0x0C0D }));

    let mut single = Sht3x::new(MockI2c::failing_writes(error));
    let mut ex = single.start_art_exchange();
    run(&mut single, &mut ex, &mut delay);
    let (single, failure) = single.start_art(ex).unwrap_err().into_parts();
    assert_eq!(failure, Error::I2c(error));
    assert_eq!(single.address(), 0x44);
}

#[test]
fn fetch_command_nack_is_not_mapped_to_not_ready() {
    let error = MockI2cError::no_ack_read_header();
    let mut sensor = periodic_sensor(MockI2c::new(Vec::new()));
    sensor.bus_mut().fail_writes = Some(error);
    let mut delay = MockDelay::default();

    let mut ex = sensor.fetch_raw_exchange();
    run(&mut sensor, &mut ex, &mut delay);
    assert_eq!(sensor.fetch_raw(ex), Err(Error::I2c(error)));
}

#[test]
fn fetch_keeps_crc_errors() {
    let mut bytes = measurement_bytes(0x1234, 0x5678);
    bytes[2] ^= 0x80;
    let mut sensor = periodic_sensor(MockI2c::new(Vec::from([bytes])));
    let mut delay = MockDelay::default();

    let mut ex = sensor.fetch_raw_exchange();
    run(&mut sensor, &mut ex, &mut delay);
    assert_eq!(
        sensor.fetch_raw(ex),
        Err(Error::Crc {
            word: DataWord::Temperature,
            expected: crc8([0x12, 0x34]),
            actual: crc8([0x12, 0x34]) ^ 0x80,
        })
    );
}

#[test]
fn status_bits_follow_the_datasheet() {
    let status = Status(0b0000_1100_0000_0000);
    assert!(status.humidity_alert());
    assert!(status.temperature_alert());
    assert!(!status.alert_pending());
    assert!(!status.heater_enabled());
    assert!(!status.reset_detected());
    assert!(!status.command_failed());
    assert!(!status.write_checksum_failed());
}

#[test]
fn sensor_error_messages_for_logs() {
    assert_eq!(Error::<MockI2cError>::NotReady.message(), "measurement not ready");
    assert_eq!(Error::I2c(MockI2cError::other()).message(), "I2C bus error: ");
    let error = Error::<MockI2cError>::Crc { word: DataWord::Status, expected: 0x0A, actual: 0xF0 };
    assert_eq!(error.message(), "CRC mismatch for Status: expected 0x0A, got 0xF0");
}

#[test]
fn exchange_reports_where_it_failed() {
    let sensor = Sht3x::new(MockI2c::new(Vec::new()));
    let mut ex: Exchange<u8> = sensor.status_exchange();
    assert_eq!(ex.reply_capacity(), 3);
    assert_eq!(
        ex.next_op(),
        Some(&BusOp::Write { address: 0x44, bytes: Vec::from([0xF3, 0x2D]) })
    );
    ex.succeed();
    assert_eq!(ex.next_op(), Some(&BusOp::Read { address: 0x44, len: 3 }));
    ex.fail(7);
    assert!(ex.is_done());
    assert_eq!(ex.next_op(), None);
    match ex.into_outcome() {
        Outcome::Failed { step, reading, fault } => {
            assert_eq!(step, 1);
            assert!(reading);
            assert_eq!(fault, 7);
        }
        Outcome::Completed(_) => panic!("the read failed"),
    }
}

fn assert_send<T: Send>() {}

#[test]
fn driver_is_send_when_i2c_is_send() {
    assert_send::<Sht3x<MockI2c>>();
}

#[test]
fn fetch_keeps_unknown_source_nack_as_bus_error() {
    let error = MockI2cError(ErrorKind::NoAcknowledge(NoAcknowledgeSource::Unknown));
    let mut sensor = periodic_sensor(MockI2c::with_read_responses(Vec::from([
        ReadResponse::Error(error),
    ])));
    let mut delay = MockDelay::default();

    let mut ex = sensor.fetch_raw_exchange();
    run(&mut sensor, &mut ex, &mut delay);
    assert_eq!(sensor.fetch_raw(ex), Err(Error::I2c(error)));
}
