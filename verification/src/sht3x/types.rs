//! Value types, conversions and CRC checking for the SHT3x-DIS.
use vstd::prelude::*;
use vstd::string::StringExecFns;

use crate::bus::{ErrorKind, I2cFailure, NoAcknowledgeSource};

verus! {

const DEFAULT_ADDRESS: u8 = 0x44;

const ALTERNATE_ADDRESS: u8 = 0x45;

const CRC_POLYNOMIAL: u8 = 0x31;

const CRC_INIT: u8 = 0xFF;

/// SHT3x-DIS I2C address selection: `0x44` (ADDR low) or `0x45` (ADDR high).
#[derive(Debug, Copy, Clone, PartialEq, Eq)]
pub struct Address(u8);

impl Address {
    #[verifier::type_invariant]
    spec fn supported(self) -> bool {
        self.0 == DEFAULT_ADDRESS || self.0 == ALTERNATE_ADDRESS
    }

    /// The 7-bit address this value selects.
    pub closed spec fn value(self) -> u8 {
        self.0
    }

    /// `0x44`, selected when ADDR is tied low.
    pub fn default_address() -> (r: Self)
        ensures
            r.value() == 0x44,
    {
        Address(DEFAULT_ADDRESS)
    }

    /// `0x45`, selected when ADDR is tied high.
    pub fn alternate_address() -> (r: Self)
        ensures
            r.value() == 0x45,
    {
        Address(ALTERNATE_ADDRESS)
    }

    /// Creates an address from a supported 7-bit sensor address.
    pub fn custom(address: u8) -> (r: Option<Self>)
        ensures
            r is Some <==> (address == 0x44 || address == 0x45),
            r matches Some(a) ==> a.value() == address,
    {
        if address == DEFAULT_ADDRESS || address == ALTERNATE_ADDRESS {
            Some(Address(address))
        } else {
            None
        }
    }

    /// Returns the 7-bit I2C address.
    pub fn as_u8(self) -> (r: u8)
        ensures
            r == self.value(),
            r == 0x44 || r == 0x45,
    {
        proof {
            use_type_invariant(&self);
        }
        self.0
    }
}

impl Default for Address {
    fn default() -> (r: Self)
        ensures
            r.value() == 0x44,
    {
        Address::default_address()
    }
}

/// Measurement repeatability.
#[derive(Debug, Copy, Clone, PartialEq, Eq)]
pub enum Repeatability {
    /// Shortest conversion time with the lowest repeatability.
    Low,
    /// Balanced conversion time and repeatability.
    Medium,
    /// Longest conversion time with the highest repeatability.
    High,
}

impl Repeatability {
    /// Conservative conversion delay in milliseconds for normal supply: the
    /// datasheet maxima 4, 6 and 15 ms.
    pub fn delay_ms(self) -> (r: u32)
        ensures
            r == match self {
                Repeatability::Low => 4u32,
                Repeatability::Medium => 6u32,
                Repeatability::High => 15u32,
            },
    {
        match self {
            Repeatability::Low => 4,
            Repeatability::Medium => 6,
            Repeatability::High => 15,
        }
    }

    /// Conservative conversion delay in milliseconds for VDD below 2.4 V: the
    /// datasheet maxima 4.5, 6.5 and 15.5 ms rounded up.
    pub fn low_voltage_delay_ms(self) -> (r: u32)
        ensures
            r == match self {
                Repeatability::Low => 5u32,
                Repeatability::Medium => 7u32,
                Repeatability::High => 16u32,
            },
    {
        match self {
            Repeatability::Low => 5,
            Repeatability::Medium => 7,
            Repeatability::High => 16,
        }
    }

    /// The single-shot measurement command for this repeatability.
    pub fn single_shot_command(self, clock_stretching: bool) -> (r: u16)
        ensures
            r == spec_single_shot_command(self, clock_stretching),
    {
        match (clock_stretching, self) {
            (true, Repeatability::High) => 0x2C06,
            (true, Repeatability::Medium) => 0x2C0D,
            (true, Repeatability::Low) => 0x2C10,
            (false, Repeatability::High) => 0x2400,
            (false, Repeatability::Medium) => 0x240B,
            (false, Repeatability::Low) => 0x2416,
        }
    }
}

/// Datasheet table of single-shot commands.
pub open spec fn spec_single_shot_command(repeatability: Repeatability, clock_stretching: bool) -> u16 {
    if clock_stretching {
        match repeatability {
            Repeatability::High => 0x2C06u16,
            Repeatability::Medium => 0x2C0Du16,
            Repeatability::Low => 0x2C10u16,
        }
    } else {
        match repeatability {
            Repeatability::High => 0x2400u16,
            Repeatability::Medium => 0x240Bu16,
            Repeatability::Low => 0x2416u16,
        }
    }
}

/// Periodic acquisition rate.
#[derive(Debug, Copy, Clone, PartialEq, Eq)]
pub enum PeriodicRate {
    /// 0.5 measurements per second.
    Mps0_5,
    /// 1 measurement per second.
    Mps1,
    /// 2 measurements per second.
    Mps2,
    /// 4 measurements per second.
    Mps4,
    /// 10 measurements per second; the sensor may heat itself at this rate.
    Mps10,
}

/// Datasheet table of periodic acquisition commands.
pub open spec fn spec_periodic_command(rate: PeriodicRate, repeatability: Repeatability) -> u16 {
    match (rate, repeatability) {
        (PeriodicRate::Mps0_5, Repeatability::High) => 0x2032u16,
        (PeriodicRate::Mps0_5, Repeatability::Medium) => 0x2024u16,
        (PeriodicRate::Mps0_5, Repeatability::Low) => 0x202Fu16,
        (PeriodicRate::Mps1, Repeatability::High) => 0x2130u16,
        (PeriodicRate::Mps1, Repeatability::Medium) => 0x2126u16,
        (PeriodicRate::Mps1, Repeatability::Low) => 0x212Du16,
        (PeriodicRate::Mps2, Repeatability::High) => 0x2236u16,
        (PeriodicRate::Mps2, Repeatability::Medium) => 0x2220u16,
        (PeriodicRate::Mps2, Repeatability::Low) => 0x222Bu16,
        (PeriodicRate::Mps4, Repeatability::High) => 0x2334u16,
        (PeriodicRate::Mps4, Repeatability::Medium) => 0x2322u16,
        (PeriodicRate::Mps4, Repeatability::Low) => 0x2329u16,
        (PeriodicRate::Mps10, Repeatability::High) => 0x2737u16,
        (PeriodicRate::Mps10, Repeatability::Medium) => 0x2721u16,
        (PeriodicRate::Mps10, Repeatability::Low) => 0x272Au16,
    }
}

impl PeriodicRate {
    /// The periodic acquisition command for this rate and repeatability.
    pub fn command(self, repeatability: Repeatability) -> (r: u16)
        ensures
            r == spec_periodic_command(self, repeatability),
    {
        match (self, repeatability) {
            (PeriodicRate::Mps0_5, Repeatability::High) => 0x2032,
            (PeriodicRate::Mps0_5, Repeatability::Medium) => 0x2024,
            (PeriodicRate::Mps0_5, Repeatability::Low) => 0x202F,
            (PeriodicRate::Mps1, Repeatability::High) => 0x2130,
            (PeriodicRate::Mps1, Repeatability::Medium) => 0x2126,
            (PeriodicRate::Mps1, Repeatability::Low) => 0x212D,
            (PeriodicRate::Mps2, Repeatability::High) => 0x2236,
            (PeriodicRate::Mps2, Repeatability::Medium) => 0x2220,
            (PeriodicRate::Mps2, Repeatability::Low) => 0x222B,
            (PeriodicRate::Mps4, Repeatability::High) => 0x2334,
            (PeriodicRate::Mps4, Repeatability::Medium) => 0x2322,
            (PeriodicRate::Mps4, Repeatability::Low) => 0x2329,
            (PeriodicRate::Mps10, Repeatability::High) => 0x2737,
            (PeriodicRate::Mps10, Repeatability::Medium) => 0x2721,
            (PeriodicRate::Mps10, Repeatability::Low) => 0x272A,
        }
    }
}

/// Temperature in millidegrees Celsius: `T = -45 + 175 * S / (2^16 - 1)`, rounded down.
pub open spec fn millicelsius(raw: u16) -> int {
    -45_000 + (175_000 * raw) / 65_535
}

/// Temperature in millidegrees Fahrenheit: `T = -49 + 315 * S / (2^16 - 1)`, rounded down.
pub open spec fn millifahrenheit(raw: u16) -> int {
    -49_000 + (315_000 * raw) / 65_535
}

/// Relative humidity in hundredths of a percent: `RH = 100 * S / (2^16 - 1)`, rounded down.
pub open spec fn humidity_hundredths(raw: u16) -> int {
    (10_000 * raw) / 65_535
}

/// Raw 16-bit sensor output.
#[derive(Debug, Copy, Clone, PartialEq, Eq)]
pub struct RawMeasurement {
    /// Raw temperature word from the sensor.
    pub temperature: u16,
    /// Raw relative humidity word from the sensor.
    pub humidity: u16,
}

/// Integer-only converted sensor output.
#[derive(Debug, Copy, Clone, PartialEq, Eq)]
pub struct FixedPointMeasurement {
    /// Temperature in millidegrees Celsius. `21562` means `21.562 deg C`.
    pub temperature_millicelsius: i32,
    /// Relative humidity in hundredths of a percent. `4512` means `45.12 %RH`.
    pub relative_humidity_hundredths: u16,
}

/// Converts a raw temperature word to millidegrees Celsius.
pub fn temperature_millicelsius_from_raw(raw: u16) -> (r: i32)
    ensures
        r == millicelsius(raw),
        -45_000 <= r <= 130_000,
{
    let raw = raw as u64;
    proof {
        assert(175_000 * raw <= 175_000 * 65_535) by (nonlinear_arith)
            requires
                raw <= 65_535,
        ;
        assert((175_000 * raw) / 65_535 <= 175_000) by (nonlinear_arith)
            requires
                175_000 * raw <= 175_000 * 65_535,
        ;
    }
    let scaled = (175_000 * raw) / 65_535;
    scaled as i32 - 45_000
}

impl RawMeasurement {
    /// Converts raw sensor output using integer-only fixed-point units.
    pub fn to_fixed_point(self) -> (r: FixedPointMeasurement)
        ensures
            r.temperature_millicelsius == millicelsius(self.temperature),
            r.relative_humidity_hundredths == humidity_hundredths(self.humidity),
    {
        FixedPointMeasurement {
            temperature_millicelsius: self.temperature_millicelsius(),
            relative_humidity_hundredths: self.relative_humidity_hundredths(),
        }
    }

    /// Converts only the raw temperature output to millidegrees Celsius; `-45000`
    /// means `-45.000 deg C`.
    pub fn temperature_millicelsius(self) -> (r: i32)
        ensures
            r == millicelsius(self.temperature),
    {
        temperature_millicelsius_from_raw(self.temperature)
    }

    /// Converts only the raw temperature output to millidegrees Fahrenheit.
    pub fn temperature_millifahrenheit(self) -> (r: i32)
        ensures
            r == millifahrenheit(self.temperature),
    {
        let raw = self.temperature as u64;
        proof {
            assert(315_000 * raw <= 315_000 * 65_535) by (nonlinear_arith)
                requires
                    raw <= 65_535,
            ;
            assert((315_000 * raw) / 65_535 <= 315_000) by (nonlinear_arith)
                requires
                    315_000 * raw <= 315_000 * 65_535,
            ;
        }
        let scaled = (315_000 * raw) / 65_535;
        scaled as i32 - 49_000
    }

    /// Converts only the raw humidity output to hundredths of a percent RH; `4512`
    /// means `45.12 %RH`.
    pub fn relative_humidity_hundredths(self) -> (r: u16)
        ensures
            r == humidity_hundredths(self.humidity),
            r <= 10_000,
    {
        let raw = self.humidity as u32;
        proof {
            assert(10_000 * raw <= 10_000 * 65_535) by (nonlinear_arith)
                requires
                    raw <= 65_535,
            ;
            assert((10_000 * raw) / 65_535 <= 10_000) by (nonlinear_arith)
                requires
                    10_000 * raw <= 10_000 * 65_535,
            ;
        }
        ((10_000 * raw) / 65_535) as u16
    }
}

/// Whether the bit of the given weight (a power of two) is set.
pub open spec fn bit_set(value: u16, weight: u16) -> bool {
    (value / weight) % 2 == 1
}

/// Status register bits.
#[derive(Debug, Copy, Clone, PartialEq, Eq)]
pub struct Status(pub u16);

impl Status {
    /// `true` when the alert pin condition is currently active (bit 15).
    pub fn alert_pending(self) -> (r: bool)
        ensures
            r == bit_set(self.0, 0x8000),
    {
        let v = self.0;
        assert((v & 0x8000 != 0) == ((v / 0x8000) % 2 == 1)) by (bit_vector);
        v & 0x8000 != 0
    }

    /// `true` when the internal heater is enabled (bit 13).
    pub fn heater_enabled(self) -> (r: bool)
        ensures
            r == bit_set(self.0, 0x2000),
    {
        let v = self.0;
        assert((v & 0x2000 != 0) == ((v / 0x2000) % 2 == 1)) by (bit_vector);
        v & 0x2000 != 0
    }

    /// `true` when the humidity tracking alert condition is active (bit 11).
    pub fn humidity_alert(self) -> (r: bool)
        ensures
            r == bit_set(self.0, 0x0800),
    {
        let v = self.0;
        assert((v & 0x0800 != 0) == ((v / 0x0800) % 2 == 1)) by (bit_vector);
        v & 0x0800 != 0
    }

    /// `true` when the temperature tracking alert condition is active (bit 10).
    pub fn temperature_alert(self) -> (r: bool)
        ensures
            r == bit_set(self.0, 0x0400),
    {
        let v = self.0;
        assert((v & 0x0400 != 0) == ((v / 0x0400) % 2 == 1)) by (bit_vector);
        v & 0x0400 != 0
    }

    /// `true` when the sensor detected a reset since the flag was last cleared (bit 4).
    pub fn reset_detected(self) -> (r: bool)
        ensures
            r == bit_set(self.0, 0x0010),
    {
        let v = self.0;
        assert((v & 0x0010 != 0) == ((v / 0x0010) % 2 == 1)) by (bit_vector);
        v & 0x0010 != 0
    }

    /// `true` when the last command was not processed successfully (bit 1).
    pub fn command_failed(self) -> (r: bool)
        ensures
            r == bit_set(self.0, 0x0002),
    {
        let v = self.0;
        assert((v & 0x0002 != 0) == ((v / 0x0002) % 2 == 1)) by (bit_vector);
        v & 0x0002 != 0
    }

    /// `true` when the last write command failed its checksum validation (bit 0).
    pub fn write_checksum_failed(self) -> (r: bool)
        ensures
            r == bit_set(self.0, 0x0001),
    {
        let v = self.0;
        assert((v & 0x0001 != 0) == ((v / 0x0001) % 2 == 1)) by (bit_vector);
        v & 0x0001 != 0
    }
}

/// Data word associated with a CRC failure.
#[derive(Debug, Copy, Clone, PartialEq, Eq)]
pub enum DataWord {
    /// The temperature data word.
    Temperature,
    /// The relative humidity data word.
    Humidity,
    /// The status register word.
    Status,
}

/// Driver errors.
#[derive(Debug, Copy, Clone, PartialEq, Eq)]
pub enum Error<I2cError> {
    /// I2C bus error from the bus implementation.
    I2c(I2cError),
    /// Periodic fetch was attempted before a measurement was ready.
    NotReady,
    /// CRC byte did not match the preceding data word.
    Crc {
        /// Which 16-bit word failed CRC validation.
        word: DataWord,
        /// CRC value computed from the received data bytes.
        expected: u8,
        /// CRC byte returned by the sensor.
        actual: u8,
    },
}

/// Uppercase hexadecimal digit of a nibble.
pub open spec fn hex_digit(nibble: u8) -> Seq<char> {
    match nibble {
        0 => "0"@,
        1 => "1"@,
        2 => "2"@,
        3 => "3"@,
        4 => "4"@,
        5 => "5"@,
        6 => "6"@,
        7 => "7"@,
        8 => "8"@,
        9 => "9"@,
        10 => "A"@,
        11 => "B"@,
        12 => "C"@,
        13 => "D"@,
        14 => "E"@,
        _ => "F"@,
    }
}

/// A byte as two uppercase hexadecimal digits.
pub open spec fn hex_byte(byte: u8) -> Seq<char> {
    hex_digit(byte / 16) + hex_digit(byte % 16)
}

/// The name of a data word.
pub open spec fn data_word_name(word: DataWord) -> Seq<char> {
    match word {
        DataWord::Temperature => "Temperature"@,
        DataWord::Humidity => "Humidity"@,
        DataWord::Status => "Status"@,
    }
}

/// The text of an error. For a bus error it is the prefix that the bus
/// error's own description follows.
pub open spec fn error_text<E>(error: Error<E>) -> Seq<char> {
    match error {
        Error::I2c(_) => "I2C bus error: "@,
        Error::NotReady => "measurement not ready"@,
        Error::Crc { word, expected, actual } => "CRC mismatch for "@ + data_word_name(word)
            + ": expected 0x"@ + hex_byte(expected) + ", got 0x"@ + hex_byte(actual),
    }
}

/// Uppercase hexadecimal digit of a nibble.
fn hex_digit_text(nibble: u8) -> (r: &'static str)
    requires
        nibble < 16,
    ensures
        r@ == hex_digit(nibble),
{
    match nibble {
        0 => "0",
        1 => "1",
        2 => "2",
        3 => "3",
        4 => "4",
        5 => "5",
        6 => "6",
        7 => "7",
        8 => "8",
        9 => "9",
        10 => "A",
        11 => "B",
        12 => "C",
        13 => "D",
        14 => "E",
        _ => "F",
    }
}

/// Appends a byte as two uppercase hexadecimal digits.
fn push_hex_byte(text: &mut String, byte: u8)
    ensures
        final(text)@ == old(text)@ + hex_byte(byte),
{
    text.append(hex_digit_text(byte / 16));
    text.append(hex_digit_text(byte % 16));
}

/// The name of a data word.
fn data_word_text(word: DataWord) -> (r: &'static str)
    ensures
        r@ == data_word_name(word),
{
    match word {
        DataWord::Temperature => "Temperature",
        DataWord::Humidity => "Humidity",
        DataWord::Status => "Status",
    }
}

impl<I2cError> Error<I2cError> {
    /// A description of the error for logs, such as
    /// `CRC mismatch for Humidity: expected 0x92, got 0x93`. A bus error is
    /// described by the prefix `I2C bus error: `, which the bus error's own
    /// description is meant to follow.
    pub fn message(&self) -> (r: String)
        ensures
            r@ == error_text(*self),
    {
        match self {
            Error::I2c(_) => String::from_str("I2C bus error: "),
            Error::NotReady => String::from_str("measurement not ready"),
            Error::Crc { word, expected, actual } => {
                let mut text = String::from_str("CRC mismatch for ");
                text.append(data_word_text(*word));
                text.append(": expected 0x");
                push_hex_byte(&mut text, *expected);
                text.append(", got 0x");
                push_hex_byte(&mut text, *actual);
                text
            },
        }
    }
}

/// Driver result type.
pub type Result<T, E> = core::result::Result<T, Error<E>>;

/// One step of the CRC-8 shift register: shift left, and XOR the polynomial
/// `0x31` in when the bit shifted out was set.
pub open spec fn crc_shift(crc: u8) -> u8 {
    if crc & 0x80 != 0 {
        (crc << 1u8) ^ 0x31u8
    } else {
        crc << 1u8
    }
}

/// `n` steps of the CRC-8 shift register.
pub open spec fn crc_shifts(crc: u8, n: nat) -> u8
    decreases n,
{
    if n == 0 {
        crc
    } else {
        crc_shift(crc_shifts(crc, (n - 1) as nat))
    }
}

/// CRC-8 of the SHT3x (polynomial `0x31`, initial value `0xFF`, no final XOR)
/// over a byte sequence, most significant bit first.
pub open spec fn spec_crc8(bytes: Seq<u8>) -> u8
    decreases bytes.len(),
{
    if bytes.len() == 0 {
        0xFFu8
    } else {
        crc_shifts(spec_crc8(bytes.drop_last()) ^ bytes.last(), 8)
    }
}

/// The 16-bit word that a big-endian byte pair encodes.
pub open spec fn be_word(msb: u8, lsb: u8) -> u16 {
    (msb * 256 + lsb) as u16
}

/// Calculates the SHT3x CRC-8 over one 16-bit data word.
pub fn crc8(data: [u8; 2]) -> (r: u8)
    ensures
        r == spec_crc8(data@),
{
    let mut crc: u8 = CRC_INIT;
    let mut i: usize = 0;
    while i < 2
        invariant
            i <= 2,
            data@.len() == 2,
            crc == spec_crc8(data@.take(i as int)),
        decreases 2 - i,
    {
        assert(data@.take(i as int + 1).drop_last() =~= data@.take(i as int));
        crc = crc ^ data[i];
        let mut bit: usize = 0;
        let ghost start = crc;
        while bit < 8
            invariant
                bit <= 8,
                crc == crc_shifts(start, bit as nat),
            decreases 8 - bit,
        {
            crc = if crc & 0x80 != 0 {
                (crc << 1u8) ^ CRC_POLYNOMIAL
            } else {
                crc << 1u8
            };
            bit = bit + 1;
        }
        i = i + 1;
    }
    assert(data@.take(2) =~= data@);
    crc
}

/// Checks the CRC byte that follows a data word.
pub fn check_crc<E>(word: DataWord, msb: u8, lsb: u8, actual: u8) -> (r: Result<(), E>)
    ensures
        r is Ok <==> actual == spec_crc8(seq![msb, lsb]),
        r is Err ==> r == Err::<(), Error<E>>(
            Error::Crc { word, expected: spec_crc8(seq![msb, lsb]), actual },
        ),
{
    let expected = crc8([msb, lsb]);
    assert([msb, lsb]@ =~= seq![msb, lsb]);
    if actual == expected {
        Ok(())
    } else {
        Err(Error::Crc { word, expected, actual })
    }
}

/// What a three-byte sensor answer (word, CRC) means: the word, or the CRC error.
pub open spec fn checked_word<E>(word: DataWord, data: Seq<u8>) -> Result<u16, E> {
    if data[2] == spec_crc8(seq![data[0], data[1]]) {
        Ok(be_word(data[0], data[1]))
    } else {
        Err(Error::Crc { word, expected: spec_crc8(seq![data[0], data[1]]), actual: data[2] })
    }
}

/// What a six-byte measurement answer means: the two words, or the first CRC error.
pub open spec fn parsed_measurement<E>(data: Seq<u8>) -> Result<RawMeasurement, E> {
    match checked_word::<E>(DataWord::Temperature, data.subrange(0, 3)) {
        Err(e) => Err(e),
        Ok(temperature) => match checked_word::<E>(DataWord::Humidity, data.subrange(3, 6)) {
            Err(e) => Err(e),
            Ok(humidity) => Ok(RawMeasurement { temperature, humidity }),
        },
    }
}

/// Combines a big-endian byte pair into a word.
fn word_from_be(msb: u8, lsb: u8) -> (r: u16)
    ensures
        r == be_word(msb, lsb),
{
    (msb as u16) * 256 + (lsb as u16)
}

/// Validates and decodes a six-byte measurement answer
/// `(T msb, T lsb, T CRC, RH msb, RH lsb, RH CRC)`.
pub fn parse_raw_measurement<E>(data: [u8; 6]) -> (r: Result<RawMeasurement, E>)
    ensures
        r == parsed_measurement::<E>(data@),
{
    proof {
        vstd::array::array_len_matches_n(&data);
    }
    let temperature = check_crc(DataWord::Temperature, data[0], data[1], data[2]);
    if let Err(e) = temperature {
        return Err(e);
    }
    let humidity = check_crc(DataWord::Humidity, data[3], data[4], data[5]);
    if let Err(e) = humidity {
        return Err(e);
    }
    Ok(
        RawMeasurement {
            temperature: word_from_be(data[0], data[1]),
            humidity: word_from_be(data[3], data[4]),
        },
    )
}

/// Validates and decodes a three-byte temperature answer `(T msb, T lsb, T CRC)`.
pub fn parse_raw_temperature<E>(data: [u8; 3]) -> (r: Result<u16, E>)
    ensures
        r == checked_word::<E>(DataWord::Temperature, data@),
{
    proof {
        vstd::array::array_len_matches_n(&data);
    }
    let checked = check_crc(DataWord::Temperature, data[0], data[1], data[2]);
    if let Err(e) = checked {
        return Err(e);
    }
    Ok(word_from_be(data[0], data[1]))
}

/// Validates and decodes a three-byte status answer.
pub fn parse_status<E>(data: [u8; 3]) -> (r: Result<Status, E>)
    ensures
        r == match checked_word::<E>(DataWord::Status, data@) {
            Ok(word) => Ok(Status(word)),
            Err(e) => Err(e),
        },
{
    proof {
        vstd::array::array_len_matches_n(&data);
    }
    let checked = check_crc(DataWord::Status, data[0], data[1], data[2]);
    if let Err(e) = checked {
        return Err(e);
    }
    Ok(Status(word_from_be(data[0], data[1])))
}

/// Whether an error of the read step is the sensor refusing the read header,
/// which is how it says that no periodic sample is ready: a missing
/// acknowledge reported for the address or for the data. A missing
/// acknowledge of unknown source stays a bus error.
pub open spec fn is_read_header_nack(kind: ErrorKind) -> bool {
    ||| kind == ErrorKind::NoAcknowledge(NoAcknowledgeSource::Address)
    ||| kind == ErrorKind::NoAcknowledge(NoAcknowledgeSource::Data)
}

/// What a periodic fetch error means: a NACK of the read header becomes
/// [`Error::NotReady`]; every other error keeps its meaning.
pub open spec fn fetch_error<E>(error: Error<I2cFailure<E>>) -> Error<E> {
    match error {
        Error::I2c(failure) => if is_read_header_nack(failure.kind) {
            Error::NotReady
        } else {
            Error::I2c(failure.error)
        },
        Error::NotReady => Error::NotReady,
        Error::Crc { word, expected, actual } => Error::Crc { word, expected, actual },
    }
}

/// Maps a periodic fetch error; see [`fetch_error`].
pub fn map_fetch_error<E>(error: Error<I2cFailure<E>>) -> (r: Error<E>)
    ensures
        r == fetch_error(error),
{
    match error {
        Error::I2c(failure) => {
            let header_refused = match failure.kind {
                ErrorKind::NoAcknowledge(NoAcknowledgeSource::Address) => true,
                ErrorKind::NoAcknowledge(NoAcknowledgeSource::Data) => true,
                _ => false,
            };
            if header_refused {
                Error::NotReady
            } else {
                Error::I2c(failure.error)
            }
        },
        Error::NotReady => Error::NotReady,
        Error::Crc { word, expected, actual } => Error::Crc { word, expected, actual },
    }
}

/// The three bytes the sensor sends for a word: the word big-endian, then its CRC.
pub open spec fn word_bytes(word: u16) -> Seq<u8> {
    let msb = (word / 256) as u8;
    let lsb = (word % 256) as u8;
    seq![msb, lsb, spec_crc8(seq![msb, lsb])]
}

/// The six bytes the sensor sends for a measurement.
pub open spec fn measurement_bytes(temperature: u16, humidity: u16) -> Seq<u8> {
    word_bytes(temperature) + word_bytes(humidity)
}

/// A word sent with its checksum decodes to that word.
pub proof fn lemma_word_round_trip<E>(word: DataWord, value: u16)
    ensures
        checked_word::<E>(word, word_bytes(value)) == Ok::<u16, Error<E>>(value),
{
    let msb = (value / 256) as u8;
    let lsb = (value % 256) as u8;
    assert(be_word(msb, lsb) == value);
}

/// A measurement answer with correct checksums decodes to the words it carries.
pub proof fn lemma_measurement_round_trip<E>(temperature: u16, humidity: u16)
    ensures
        parsed_measurement::<E>(measurement_bytes(temperature, humidity)) == Ok::<
            RawMeasurement,
            Error<E>,
        >(RawMeasurement { temperature, humidity }),
{
    let bytes = measurement_bytes(temperature, humidity);
    assert(bytes.subrange(0, 3) =~= word_bytes(temperature));
    assert(bytes.subrange(3, 6) =~= word_bytes(humidity));
    lemma_word_round_trip::<E>(DataWord::Temperature, temperature);
    lemma_word_round_trip::<E>(DataWord::Humidity, humidity);
}

/// The fixed-point conversions cover the sensor's range, from the lowest raw
/// word to the highest: -45.000 to 130.000 deg C, -49.000 to 266.000 deg F and
/// 0.00 to 100.00 %RH, and a larger raw word never reads lower.
pub proof fn lemma_fixed_point_range(raw: u16, higher: u16)
    requires
        raw <= higher,
    ensures
        millicelsius(0) == -45_000,
        millicelsius(0xFFFF) == 130_000,
        millifahrenheit(0) == -49_000,
        millifahrenheit(0xFFFF) == 266_000,
        humidity_hundredths(0) == 0,
        humidity_hundredths(0xFFFF) == 10_000,
        -45_000 <= millicelsius(raw) <= 130_000,
        -49_000 <= millifahrenheit(raw) <= 266_000,
        0 <= humidity_hundredths(raw) <= 10_000,
        millicelsius(raw) <= millicelsius(higher),
        millifahrenheit(raw) <= millifahrenheit(higher),
        humidity_hundredths(raw) <= humidity_hundredths(higher),
{
    assert((175_000 * raw) / 65_535 <= (175_000 * higher) / 65_535 <= 175_000) by (nonlinear_arith)
        requires
            raw <= higher <= 65_535,
    ;
    assert((315_000 * raw) / 65_535 <= (315_000 * higher) / 65_535 <= 315_000) by (nonlinear_arith)
        requires
            raw <= higher <= 65_535,
    ;
    assert((10_000 * raw) / 65_535 <= (10_000 * higher) / 65_535 <= 10_000) by (nonlinear_arith)
        requires
            raw <= higher <= 65_535,
    ;
    assert(0 <= (175_000 * raw) / 65_535) by (nonlinear_arith);
    assert(0 <= (315_000 * raw) / 65_535) by (nonlinear_arith);
    assert(0 <= (10_000 * raw) / 65_535) by (nonlinear_arith);
}

/// The single-shot commands are the datasheet's: with clock stretching
/// `2C06h`, `2C0Dh`, `2C10h` for high, medium and low repeatability, without
/// it `2400h`, `240Bh`, `2416h`. Different requests never share a command,
/// so a measurement always runs at the repeatability and in the mode asked
/// for.
pub proof fn lemma_single_shot_commands(
    repeatability: Repeatability,
    clock_stretching: bool,
    other: Repeatability,
    other_clock_stretching: bool,
)
    ensures
        spec_single_shot_command(repeatability, clock_stretching) == match (
            clock_stretching,
            repeatability,
        ) {
            (true, Repeatability::High) => 0x2C06u16,
            (true, Repeatability::Medium) => 0x2C0Du16,
            (true, Repeatability::Low) => 0x2C10u16,
            (false, Repeatability::High) => 0x2400u16,
            (false, Repeatability::Medium) => 0x240Bu16,
            (false, Repeatability::Low) => 0x2416u16,
        },
        spec_single_shot_command(repeatability, clock_stretching) == spec_single_shot_command(
            other,
            other_clock_stretching,
        ) ==> repeatability == other && clock_stretching == other_clock_stretching,
{
}

/// Every periodic rate and repeatability has its own start command, the
/// datasheet's, in its command families: `20xxh` for 0.5, `21xxh` for 1, `22xxh` for
/// 2, `23xxh` for 4 and `27xxh` for 10 measurements per second.
pub proof fn lemma_periodic_commands(
    rate: PeriodicRate,
    repeatability: Repeatability,
    other_rate: PeriodicRate,
    other_repeatability: Repeatability,
)
    ensures
        spec_periodic_command(rate, repeatability) == match (rate, repeatability) {
            (PeriodicRate::Mps0_5, Repeatability::High) => 0x2032u16,
            (PeriodicRate::Mps0_5, Repeatability::Medium) => 0x2024u16,
            (PeriodicRate::Mps0_5, Repeatability::Low) => 0x202Fu16,
            (PeriodicRate::Mps1, Repeatability::High) => 0x2130u16,
            (PeriodicRate::Mps1, Repeatability::Medium) => 0x2126u16,
            (PeriodicRate::Mps1, Repeatability::Low) => 0x212Du16,
            (PeriodicRate::Mps2, Repeatability::High) => 0x2236u16,
            (PeriodicRate::Mps2, Repeatability::Medium) => 0x2220u16,
            (PeriodicRate::Mps2, Repeatability::Low) => 0x222Bu16,
            (PeriodicRate::Mps4, Repeatability::High) => 0x2334u16,
            (PeriodicRate::Mps4, Repeatability::Medium) => 0x2322u16,
            (PeriodicRate::Mps4, Repeatability::Low) => 0x2329u16,
            (PeriodicRate::Mps10, Repeatability::High) => 0x2737u16,
            (PeriodicRate::Mps10, Repeatability::Medium) => 0x2721u16,
            (PeriodicRate::Mps10, Repeatability::Low) => 0x272Au16,
        },
        spec_periodic_command(rate, repeatability) / 256 == match rate {
            PeriodicRate::Mps0_5 => 0x20int,
            PeriodicRate::Mps1 => 0x21int,
            PeriodicRate::Mps2 => 0x22int,
            PeriodicRate::Mps4 => 0x23int,
            PeriodicRate::Mps10 => 0x27int,
        },
        spec_periodic_command(rate, repeatability) == spec_periodic_command(
            other_rate,
            other_repeatability,
        ) ==> rate == other_rate && repeatability == other_repeatability,
{
}

} // verus!
