//! The SHT3x-DIS driver: command sequences, acquisition modes and results.
//!
//! Every bus operation of the sensor is a pair: a method ending in `_exchange`
//! plans the bus steps, and the method of the same name without the suffix
//! turns the finished [`Exchange`] into the result. Mode changes (single shot,
//! periodic, ART) consume the driver and return it in its new mode.
use core::marker::PhantomData;

use vstd::prelude::*;

use crate::bus::{BusOp, Exchange, I2cFailure, Outcome, Step, addressed_to, reply_len, steps_of};
use crate::sht3x::types::{
    Address, Error, RawMeasurement, Repeatability, PeriodicRate, Result, Status, checked_word,
    fetch_error, map_fetch_error, millicelsius, parse_raw_measurement, parse_raw_temperature,
    parse_status, parsed_measurement, spec_periodic_command, spec_single_shot_command,
    temperature_millicelsius_from_raw, DataWord,
};

verus! {

const GENERAL_CALL_ADDRESS: u8 = 0x00;

const GENERAL_CALL_RESET: u8 = 0x06;

const CMD_FETCH_DATA: u16 = 0xE000;

const CMD_ART: u16 = 0x2B32;

const CMD_BREAK: u16 = 0x3093;

const CMD_SOFT_RESET: u16 = 0x30A2;

const CMD_HEATER_ENABLE: u16 = 0x306D;

const CMD_HEATER_DISABLE: u16 = 0x3066;

const CMD_READ_STATUS: u16 = 0xF32D;

const CMD_CLEAR_STATUS: u16 = 0x3041;

const COMMAND_DELAY_MS: u32 = 1;

const RESET_DELAY_MS: u32 = 2;

/// Marker type for the default single-shot command mode.
#[derive(Debug, Copy, Clone, PartialEq, Eq, Default)]
pub struct SingleShotMode;

/// Marker type for periodic acquisition mode.
#[derive(Debug, Copy, Clone, PartialEq, Eq, Default)]
pub struct PeriodicMode;

/// Marker type for ART (accelerated response time) acquisition mode.
#[derive(Debug, Copy, Clone, PartialEq, Eq, Default)]
pub struct ArtMode;

/// The two bytes of a 16-bit command, most significant first.
pub open spec fn command_bytes(command: u16) -> Seq<u8> {
    seq![(command / 256) as u8, (command % 256) as u8]
}

/// Writing a command to the sensor.
pub open spec fn command_step(address: u8, command: u16) -> Step {
    Step::Write(address, command_bytes(command))
}

/// A command on its own.
pub open spec fn command_plan(address: u8, command: u16) -> Seq<Step> {
    seq![command_step(address, command)]
}

/// A command followed by a wait.
pub open spec fn command_wait_plan(address: u8, command: u16, ms: u32) -> Seq<Step> {
    seq![command_step(address, command), Step::DelayMs(ms)]
}

/// A command, a wait, then a read of `len` bytes.
pub open spec fn command_wait_read_plan(address: u8, command: u16, ms: u32, len: nat) -> Seq<
    Step,
> {
    seq![command_step(address, command), Step::DelayMs(ms), Step::Read(address, len)]
}

/// A command immediately followed by a read of `len` bytes.
pub open spec fn command_read_plan(address: u8, command: u16, len: nat) -> Seq<Step> {
    seq![command_step(address, command), Step::Read(address, len)]
}

/// Conversion delay of a single-shot measurement, for normal supply or for
/// VDD below 2.4 V.
pub open spec fn conversion_ms(repeatability: Repeatability, low_voltage: bool) -> u32 {
    match (repeatability, low_voltage) {
        (Repeatability::Low, false) => 4u32,
        (Repeatability::Medium, false) => 6u32,
        (Repeatability::High, false) => 15u32,
        (Repeatability::Low, true) => 5u32,
        (Repeatability::Medium, true) => 7u32,
        (Repeatability::High, true) => 16u32,
    }
}

/// A single-shot measurement without clock stretching: the command, the
/// conversion delay, then a read of `len` bytes.
pub open spec fn measurement_plan(
    address: u8,
    repeatability: Repeatability,
    low_voltage: bool,
    len: nat,
) -> Seq<Step> {
    command_wait_read_plan(
        address,
        spec_single_shot_command(repeatability, false),
        conversion_ms(repeatability, low_voltage),
        len,
    )
}

/// The command that switches the heater on or off.
pub open spec fn heater_command_spec(enabled: bool) -> u16 {
    if enabled {
        0x306Du16
    } else {
        0x3066u16
    }
}

/// Result of an exchange that only writes and waits.
pub open spec fn command_result<E>(ex: Exchange<I2cFailure<E>>) -> Result<(), E> {
    match ex.fault() {
        Some(failure) => Err(Error::I2c(failure.error)),
        None => Ok(()),
    }
}

/// Result of an exchange that ends by reading a measurement.
pub open spec fn measurement_result<E>(ex: Exchange<I2cFailure<E>>) -> Result<RawMeasurement, E> {
    match ex.fault() {
        Some(failure) => Err(Error::I2c(failure.error)),
        None => parsed_measurement::<E>(ex.reply()),
    }
}

/// Result of an exchange that ends by reading a temperature word.
pub open spec fn temperature_result<E>(ex: Exchange<I2cFailure<E>>) -> Result<u16, E> {
    match ex.fault() {
        Some(failure) => Err(Error::I2c(failure.error)),
        None => checked_word::<E>(DataWord::Temperature, ex.reply()),
    }
}

/// Result of an exchange that ends by reading the status register.
pub open spec fn status_result<E>(ex: Exchange<I2cFailure<E>>) -> Result<Status, E> {
    match ex.fault() {
        Some(failure) => Err(Error::I2c(failure.error)),
        None => match checked_word::<E>(DataWord::Status, ex.reply()) {
            Ok(word) => Ok(Status(word)),
            Err(e) => Err(e),
        },
    }
}

/// Result of a periodic fetch: errors of the read go through [`fetch_error`],
/// errors of the command write do not.
pub open spec fn fetch_result<E>(ex: Exchange<I2cFailure<E>>) -> Result<RawMeasurement, E> {
    match ex.fault() {
        Some(failure) => if ex.steps()[ex.position() as int] is Read {
            Err(fetch_error(Error::I2c(failure)))
        } else {
            Err(Error::I2c(failure.error))
        },
        None => match parsed_measurement::<I2cFailure<E>>(ex.reply()) {
            Ok(m) => Ok(m),
            Err(e) => Err(fetch_error(e)),
        },
    }
}

/// Builds the bus step that writes a command.
fn command_op(address: u8, command: u16) -> (r: BusOp)
    ensures
        r@ == command_step(address, command),
{
    let bytes = vec![(command / 256) as u8, (command % 256) as u8];
    assert(bytes@ =~= command_bytes(command));
    BusOp::Write { address, bytes }
}

/// Plans a command on its own.
fn command_exchange<F>(address: u8, command: u16) -> (r: Exchange<F>)
    ensures
        r.steps() == command_plan(address, command),
        r.position() == 0,
        r.reply() == Seq::<u8>::empty(),
        addressed_to(r.steps(), address),
        r.fault() is None,
        r.expected_reply_len() == 0,
{
    let ops = vec![command_op(address, command)];
    assert(steps_of(ops@) =~= command_plan(address, command));
    proof {
        reveal_with_fuel(reply_len, 2);
    }
    proof {
        lemma_sensor_plans_addressed(address, command, 0, 0);
    }
    Exchange::new(ops)
}

/// Plans a command followed by a wait.
fn command_wait_exchange<F>(address: u8, command: u16, ms: u32) -> (r: Exchange<F>)
    ensures
        r.steps() == command_wait_plan(address, command, ms),
        r.position() == 0,
        r.reply() == Seq::<u8>::empty(),
        addressed_to(r.steps(), address),
        r.fault() is None,
        r.expected_reply_len() == 0,
{
    let ops = vec![command_op(address, command), BusOp::DelayMs { ms }];
    assert(steps_of(ops@) =~= command_wait_plan(address, command, ms));
    proof {
        reveal_with_fuel(reply_len, 3);
    }
    proof {
        lemma_sensor_plans_addressed(address, command, ms, 0);
    }
    Exchange::new(ops)
}

/// Plans a command, a wait, then a read.
fn command_wait_read_exchange<F>(address: u8, command: u16, ms: u32, len: usize) -> (r: Exchange<
    F,
>)
    ensures
        r.steps() == command_wait_read_plan(address, command, ms, len as nat),
        r.position() == 0,
        r.reply() == Seq::<u8>::empty(),
        addressed_to(r.steps(), address),
        r.fault() is None,
        r.expected_reply_len() == len,
{
    let ops = vec![command_op(address, command), BusOp::DelayMs { ms }, BusOp::Read { address, len }];
    assert(steps_of(ops@) =~= command_wait_read_plan(address, command, ms, len as nat));
    proof {
        reveal_with_fuel(reply_len, 4);
    }
    proof {
        lemma_sensor_plans_addressed(address, command, ms, len as nat);
    }
    Exchange::new(ops)
}

/// Plans a command immediately followed by a read.
fn command_read_exchange<F>(address: u8, command: u16, len: usize) -> (r: Exchange<F>)
    ensures
        r.steps() == command_read_plan(address, command, len as nat),
        r.position() == 0,
        r.reply() == Seq::<u8>::empty(),
        addressed_to(r.steps(), address),
        r.fault() is None,
        r.expected_reply_len() == len,
{
    let ops = vec![command_op(address, command), BusOp::Read { address, len }];
    assert(steps_of(ops@) =~= command_read_plan(address, command, len as nat));
    proof {
        reveal_with_fuel(reply_len, 3);
    }
    proof {
        lemma_sensor_plans_addressed(address, command, 0, len as nat);
    }
    Exchange::new(ops)
}

/// Turns a finished write-only exchange into its result.
fn finish_command<E>(ex: Exchange<I2cFailure<E>>) -> (r: Result<(), E>)
    requires
        ex.done(),
    ensures
        r == command_result(ex),
{
    match ex.into_outcome() {
        Outcome::Completed(_) => Ok(()),
        Outcome::Failed { fault, .. } => Err(Error::I2c(fault.error)),
    }
}

/// Copies a six-byte answer into an array.
fn six_bytes(data: &Vec<u8>) -> (r: [u8; 6])
    requires
        data@.len() == 6,
    ensures
        r@ == data@,
{
    let r = [data[0], data[1], data[2], data[3], data[4], data[5]];
    assert(r@ =~= data@);
    r
}

/// Copies a three-byte answer into an array.
fn three_bytes(data: &Vec<u8>) -> (r: [u8; 3])
    requires
        data@.len() == 3,
    ensures
        r@ == data@,
{
    let r = [data[0], data[1], data[2]];
    assert(r@ =~= data@);
    r
}

/// Turns a finished exchange that reads a measurement into its result.
fn finish_measurement<E>(ex: Exchange<I2cFailure<E>>) -> (r: Result<RawMeasurement, E>)
    requires
        ex.done(),
        ex.expected_reply_len() == 6,
    ensures
        r == measurement_result(ex),
{
    match ex.into_outcome() {
        Outcome::Completed(data) => parse_raw_measurement(six_bytes(&data)),
        Outcome::Failed { fault, .. } => Err(Error::I2c(fault.error)),
    }
}

/// Turns a finished exchange that reads a temperature word into its result.
fn finish_temperature<E>(ex: Exchange<I2cFailure<E>>) -> (r: Result<u16, E>)
    requires
        ex.done(),
        ex.expected_reply_len() == 3,
    ensures
        r == temperature_result(ex),
{
    match ex.into_outcome() {
        Outcome::Completed(data) => parse_raw_temperature(three_bytes(&data)),
        Outcome::Failed { fault, .. } => Err(Error::I2c(fault.error)),
    }
}

/// Sensirion SHT3x-DIS driver. It owns the I2C bus value and the sensor
/// address; its type records the acquisition mode.
///
/// Start with [`Self::measure_raw`] for one-shot readings, or
/// [`Self::start_periodic_and_wait`] followed by `fetch_raw` on the returned
/// periodic-mode driver.
#[derive(Debug)]
pub struct Sht3x<I2C, MODE = SingleShotMode> {
    i2c: I2C,
    address: u8,
    _mode: PhantomData<MODE>,
}

/// Error returned when a mode change fails; it hands the driver back in the
/// mode it was in.
#[derive(Debug)]
pub struct ModeChangeError<DRIVER, BusError> {
    driver: DRIVER,
    error: Error<BusError>,
}

impl<DRIVER, BusError> ModeChangeError<DRIVER, BusError> {
    /// The preserved driver.
    pub closed spec fn kept_driver(&self) -> DRIVER {
        self.driver
    }

    /// The error that stopped the mode change.
    pub closed spec fn failure(&self) -> Error<BusError> {
        self.error
    }

    fn new(driver: DRIVER, error: Error<BusError>) -> (r: Self)
        ensures
            r.kept_driver() == driver,
            r.failure() == error,
    {
        ModeChangeError { driver, error }
    }

    /// Returns the preserved driver.
    pub fn driver(&self) -> (r: &DRIVER)
        ensures
            *r == self.kept_driver(),
    {
        &self.driver
    }

    /// Returns the underlying driver error.
    pub fn error(&self) -> (r: &Error<BusError>)
        ensures
            *r == self.failure(),
    {
        &self.error
    }

    /// Splits the error into the preserved driver and the underlying error.
    pub fn into_parts(self) -> (r: (DRIVER, Error<BusError>))
        ensures
            r.0 == self.kept_driver(),
            r.1 == self.failure(),
    {
        (self.driver, self.error)
    }
}

/// Result of a mode change from `CURRENT` to `NEXT`.
pub type ModeChange<I2C, CURRENT, NEXT, E> = core::result::Result<
    Sht3x<I2C, NEXT>,
    ModeChangeError<Sht3x<I2C, CURRENT>, E>,
>;

/// What a finished mode-change exchange gives: when every step went through,
/// the driver in its new mode with the same bus and address; otherwise the
/// bus error, together with the driver unchanged in its old mode.
pub open spec fn mode_changed<I2C, CURRENT, NEXT, E>(
    driver: Sht3x<I2C, CURRENT>,
    ex: Exchange<I2cFailure<E>>,
    r: ModeChange<I2C, CURRENT, NEXT, E>,
) -> bool {
    match r {
        Ok(next) => {
            &&& ex.fault() is None
            &&& next.bus() == driver.bus()
            &&& next.i2c_address() == driver.i2c_address()
        },
        Err(e) => {
            &&& ex.fault() matches Some(failure) && e.failure() == Error::<E>::I2c(failure.error)
            &&& e.kept_driver() == driver
        },
    }
}

impl<I2C, MODE> Sht3x<I2C, MODE> {
    /// The bus value the driver owns.
    pub closed spec fn bus(&self) -> I2C {
        self.i2c
    }

    /// The 7-bit sensor address the driver talks to.
    pub closed spec fn i2c_address(&self) -> u8 {
        self.address
    }

    fn into_mode<NEXT>(self) -> (r: Sht3x<I2C, NEXT>)
        ensures
            r.bus() == self.bus(),
            r.i2c_address() == self.i2c_address(),
    {
        Sht3x { i2c: self.i2c, address: self.address, _mode: PhantomData }
    }

    /// Returns the configured 7-bit I2C address.
    pub fn address(&self) -> (r: u8)
        ensures
            r == self.i2c_address(),
    {
        self.address
    }

    /// Releases the I2C bus.
    pub fn release(self) -> (r: I2C)
        ensures
            r == self.bus(),
    {
        self.i2c
    }

    /// The bus, so that the caller can perform a planned exchange on it.
    pub fn bus_mut(&mut self) -> (r: &mut I2C)
        ensures
            *r == old(self).bus(),
            *final(r) == final(self).bus(),
            final(self).i2c_address() == old(self).i2c_address(),
    {
        &mut self.i2c
    }

    /// Plans a periodic or ART data fetch: the fetch command, then a six-byte read.
    fn fetch_exchange<F>(&self) -> (r: Exchange<F>)
        ensures
            r.steps() == command_read_plan(self.i2c_address(), 0xE000, 6),
            r.position() == 0,
            r.reply() == Seq::<u8>::empty(),
            addressed_to(r.steps(), self.i2c_address()),
            r.fault() is None,
            r.expected_reply_len() == 6,
    {
        command_read_exchange(self.address, CMD_FETCH_DATA, 6)
    }

    /// Turns a finished fetch into its result.
    fn finish_fetch<E>(&self, ex: Exchange<I2cFailure<E>>) -> (r: Result<RawMeasurement, E>)
        requires
            ex.done(),
            ex.expected_reply_len() == 6,
        ensures
            r == fetch_result(ex),
    {
        let ghost failed_step = ex.position();
        match ex.into_outcome() {
            Outcome::Completed(data) => {
                match parse_raw_measurement::<I2cFailure<E>>(six_bytes(&data)) {
                    Ok(m) => Ok(m),
                    Err(e) => Err(map_fetch_error(e)),
                }
            },
            Outcome::Failed { reading, fault, .. } => {
                if reading {
                    Err(map_fetch_error(Error::I2c(fault)))
                } else {
                    Err(Error::I2c(fault.error))
                }
            },
        }
    }

    /// Plans the break command that ends periodic acquisition, then the 1 ms
    /// the sensor needs to return to single-shot mode.
    fn stop_exchange<F>(&self) -> (r: Exchange<F>)
        ensures
            r.steps() == command_wait_plan(self.i2c_address(), 0x3093, 1),
            r.position() == 0,
            r.reply() == Seq::<u8>::empty(),
            addressed_to(r.steps(), self.i2c_address()),
            r.fault() is None,
            r.expected_reply_len() == 0,
    {
        command_wait_exchange(self.address, CMD_BREAK, COMMAND_DELAY_MS)
    }

    /// Turns a finished break exchange into the single-shot driver.
    fn finish_stop<E>(self, ex: Exchange<I2cFailure<E>>) -> (r: ModeChange<I2C, MODE, SingleShotMode, E>)
        requires
            ex.done(),
        ensures
            mode_changed(self, ex, r),
    {
        self.finish_mode_change(ex)
    }

    /// Turns a finished mode-change exchange into the driver in its new mode,
    /// or hands the driver back in its old mode with the error.
    fn finish_mode_change<NEXT, E>(self, ex: Exchange<I2cFailure<E>>) -> (r: ModeChange<
        I2C,
        MODE,
        NEXT,
        E,
    >)
        requires
            ex.done(),
        ensures
            mode_changed(self, ex, r),
    {
        match finish_command(ex) {
            Ok(()) => Ok(self.into_mode()),
            Err(error) => Err(ModeChangeError::new(self, error)),
        }
    }
}

impl<I2C> Sht3x<I2C> {
    /// Creates a driver using the default `0x44` address.
    pub fn new(i2c: I2C) -> (r: Self)
        ensures
            r.bus() == i2c,
            r.i2c_address() == 0x44,
    {
        Self::with_address(i2c, Address::default_address())
    }

    /// Creates a driver using the selected 7-bit address.
    pub fn with_address(i2c: I2C, address: Address) -> (r: Self)
        ensures
            r.bus() == i2c,
            r.i2c_address() == address.value(),
    {
        Sht3x { i2c, address: address.as_u8(), _mode: PhantomData }
    }

    /// Plans a single-shot measurement without clock stretching: the command,
    /// the conversion delay for normal supply, then a six-byte read.
    pub fn measure_raw_exchange<F>(&self, repeatability: Repeatability) -> (r: Exchange<F>)
        ensures
            r.steps() == command_wait_read_plan(
                self.i2c_address(),
                spec_single_shot_command(repeatability, false),
                match repeatability {
                    Repeatability::Low => 4u32,
                    Repeatability::Medium => 6u32,
                    Repeatability::High => 15u32,
                },
                6,
            ),
            r.position() == 0,
            r.reply() == Seq::<u8>::empty(),
            addressed_to(r.steps(), self.i2c_address()),
            r.fault() is None,
            r.expected_reply_len() == 6,
    {
        command_wait_read_exchange(
            self.address,
            repeatability.single_shot_command(false),
            repeatability.delay_ms(),
            6,
        )
    }

    /// Result of a single-shot measurement: the CRC-checked raw words.
    pub fn measure_raw<E>(
        &mut self,
        repeatability: Repeatability,
        ex: Exchange<I2cFailure<E>>,
    ) -> (r: Result<RawMeasurement, E>)
        requires
            ex.steps() == measurement_plan(self.i2c_address(), repeatability, false, 6),
            ex.done(),
            ex.expected_reply_len() == 6,
        ensures
            r == measurement_result(ex),
            *final(self) == *old(self),
    {
        finish_measurement(ex)
    }

    /// Plans a single-shot measurement at VDD below 2.4 V: like
    /// [`Self::measure_raw_exchange`] with the longer conversion delays.
    pub fn measure_raw_low_voltage_exchange<F>(&self, repeatability: Repeatability) -> (r: Exchange<
        F,
    >)
        ensures
            r.steps() == command_wait_read_plan(
                self.i2c_address(),
                spec_single_shot_command(repeatability, false),
                match repeatability {
                    Repeatability::Low => 5u32,
                    Repeatability::Medium => 7u32,
                    Repeatability::High => 16u32,
                },
                6,
            ),
            r.position() == 0,
            r.reply() == Seq::<u8>::empty(),
            addressed_to(r.steps(), self.i2c_address()),
            r.fault() is None,
            r.expected_reply_len() == 6,
    {
        command_wait_read_exchange(
            self.address,
            repeatability.single_shot_command(false),
            repeatability.low_voltage_delay_ms(),
            6,
        )
    }

    /// Result of a low-voltage single-shot measurement.
    pub fn measure_raw_low_voltage<E>(
        &mut self,
        repeatability: Repeatability,
        ex: Exchange<I2cFailure<E>>,
    ) -> (r: Result<RawMeasurement, E>)
        requires
            ex.steps() == measurement_plan(self.i2c_address(), repeatability, true, 6),
            ex.done(),
            ex.expected_reply_len() == 6,
        ensures
            r == measurement_result(ex),
            *final(self) == *old(self),
    {
        finish_measurement(ex)
    }

    /// Plans a single-shot measurement that reads only the temperature word:
    /// the command, the conversion delay, then a three-byte read that stops
    /// before the humidity word.
    pub fn measure_temperature_raw_exchange<F>(&self, repeatability: Repeatability) -> (r: Exchange<
        F,
    >)
        ensures
            r.steps() == command_wait_read_plan(
                self.i2c_address(),
                spec_single_shot_command(repeatability, false),
                match repeatability {
                    Repeatability::Low => 4u32,
                    Repeatability::Medium => 6u32,
                    Repeatability::High => 15u32,
                },
                3,
            ),
            r.position() == 0,
            r.reply() == Seq::<u8>::empty(),
            addressed_to(r.steps(), self.i2c_address()),
            r.fault() is None,
            r.expected_reply_len() == 3,
    {
        command_wait_read_exchange(
            self.address,
            repeatability.single_shot_command(false),
            repeatability.delay_ms(),
            3,
        )
    }

    /// Result of a temperature-only measurement: the CRC-checked raw word.
    pub fn measure_temperature_raw<E>(
        &mut self,
        repeatability: Repeatability,
        ex: Exchange<I2cFailure<E>>,
    ) -> (r: Result<u16, E>)
        requires
            ex.steps() == measurement_plan(self.i2c_address(), repeatability, false, 3),
            ex.done(),
            ex.expected_reply_len() == 3,
        ensures
            r == temperature_result(ex),
            *final(self) == *old(self),
    {
        finish_temperature(ex)
    }

    /// Result of a temperature-only measurement in millidegrees Celsius; the
    /// exchange is the one [`Self::measure_temperature_raw_exchange`] plans.
    pub fn measure_temperature_millicelsius<E>(
        &mut self,
        repeatability: Repeatability,
        ex: Exchange<I2cFailure<E>>,
    ) -> (r: Result<i32, E>)
        requires
            ex.steps() == measurement_plan(self.i2c_address(), repeatability, false, 3),
            ex.done(),
            ex.expected_reply_len() == 3,
        ensures
            r == match temperature_result(ex) {
                Ok(raw) => Ok(millicelsius(raw) as i32),
                Err(e) => Err::<i32, Error<E>>(e),
            },
            *final(self) == *old(self),
    {
        match finish_temperature(ex) {
            Ok(raw) => Ok(temperature_millicelsius_from_raw(raw)),
            Err(e) => Err(e),
        }
    }

    /// Plans a low-voltage single-shot measurement that reads only the temperature word.
    pub fn measure_temperature_raw_low_voltage_exchange<F>(
        &self,
        repeatability: Repeatability,
    ) -> (r: Exchange<F>)
        ensures
            r.steps() == command_wait_read_plan(
                self.i2c_address(),
                spec_single_shot_command(repeatability, false),
                match repeatability {
                    Repeatability::Low => 5u32,
                    Repeatability::Medium => 7u32,
                    Repeatability::High => 16u32,
                },
                3,
            ),
            r.position() == 0,
            r.reply() == Seq::<u8>::empty(),
            addressed_to(r.steps(), self.i2c_address()),
            r.fault() is None,
            r.expected_reply_len() == 3,
    {
        command_wait_read_exchange(
            self.address,
            repeatability.single_shot_command(false),
            repeatability.low_voltage_delay_ms(),
            3,
        )
    }

    /// Result of a low-voltage temperature-only measurement.
    pub fn measure_temperature_raw_low_voltage<E>(
        &mut self,
        repeatability: Repeatability,
        ex: Exchange<I2cFailure<E>>,
    ) -> (r: Result<u16, E>)
        requires
            ex.steps() == measurement_plan(self.i2c_address(), repeatability, true, 3),
            ex.done(),
            ex.expected_reply_len() == 3,
        ensures
            r == temperature_result(ex),
            *final(self) == *old(self),
    {
        finish_temperature(ex)
    }

    /// Plans a clock-stretched single-shot measurement: the command, then a
    /// six-byte read that the sensor holds until the conversion is done.
    pub fn measure_raw_with_clock_stretching_exchange<F>(&self, repeatability: Repeatability) -> (r:
        Exchange<F>)
        ensures
            r.steps() == command_read_plan(
                self.i2c_address(),
                spec_single_shot_command(repeatability, true),
                6,
            ),
            r.position() == 0,
            r.reply() == Seq::<u8>::empty(),
            addressed_to(r.steps(), self.i2c_address()),
            r.fault() is None,
            r.expected_reply_len() == 6,
    {
        command_read_exchange(self.address, repeatability.single_shot_command(true), 6)
    }

    /// Result of a clock-stretched measurement.
    pub fn measure_raw_with_clock_stretching<E>(
        &mut self,
        repeatability: Repeatability,
        ex: Exchange<I2cFailure<E>>,
    ) -> (r: Result<RawMeasurement, E>)
        requires
            ex.steps() == command_read_plan(self.i2c_address(), spec_single_shot_command(repeatability, true), 6),
            ex.done(),
            ex.expected_reply_len() == 6,
        ensures
            r == measurement_result(ex),
            *final(self) == *old(self),
    {
        finish_measurement(ex)
    }

    /// Plans a clock-stretched measurement that reads only the temperature word.
    pub fn measure_temperature_raw_with_clock_stretching_exchange<F>(
        &self,
        repeatability: Repeatability,
    ) -> (r: Exchange<F>)
        ensures
            r.steps() == command_read_plan(
                self.i2c_address(),
                spec_single_shot_command(repeatability, true),
                3,
            ),
            r.position() == 0,
            r.reply() == Seq::<u8>::empty(),
            addressed_to(r.steps(), self.i2c_address()),
            r.fault() is None,
            r.expected_reply_len() == 3,
    {
        command_read_exchange(self.address, repeatability.single_shot_command(true), 3)
    }

    /// Result of a clock-stretched temperature-only measurement.
    pub fn measure_temperature_raw_with_clock_stretching<E>(
        &mut self,
        repeatability: Repeatability,
        ex: Exchange<I2cFailure<E>>,
    ) -> (r: Result<u16, E>)
        requires
            ex.steps() == command_read_plan(self.i2c_address(), spec_single_shot_command(repeatability, true), 3),
            ex.done(),
            ex.expected_reply_len() == 3,
        ensures
            r == temperature_result(ex),
            *final(self) == *old(self),
    {
        finish_temperature(ex)
    }

    /// Plans the start of periodic acquisition: the rate and repeatability
    /// command. The sensor needs 1 ms before the next command; see
    /// [`Self::start_periodic_and_wait_exchange`].
    pub fn start_periodic_exchange<F>(&self, repeatability: Repeatability, rate: PeriodicRate) -> (r:
        Exchange<F>)
        ensures
            r.steps() == command_plan(self.i2c_address(), spec_periodic_command(rate, repeatability)),
            r.position() == 0,
            r.reply() == Seq::<u8>::empty(),
            addressed_to(r.steps(), self.i2c_address()),
            r.fault() is None,
    {
        command_exchange(self.address, rate.command(repeatability))
    }

    /// Finishes starting periodic acquisition: on success the driver comes back
    /// in periodic mode; on a bus error the error hands the driver back in
    /// single-shot mode.
    pub fn start_periodic<E>(
        self,
        repeatability: Repeatability,
        rate: PeriodicRate,
        ex: Exchange<I2cFailure<E>>,
    ) -> (r: ModeChange<I2C, SingleShotMode, PeriodicMode, E>)
        requires
            ex.steps() == command_plan(self.i2c_address(), spec_periodic_command(rate, repeatability)),
            ex.done(),
        ensures
            mode_changed(self, ex, r),
    {
        self.finish_mode_change(ex)
    }

    /// Plans the start of periodic acquisition followed by the 1 ms command gap.
    pub fn start_periodic_and_wait_exchange<F>(
        &self,
        repeatability: Repeatability,
        rate: PeriodicRate,
    ) -> (r: Exchange<F>)
        ensures
            r.steps() == command_wait_plan(
                self.i2c_address(),
                spec_periodic_command(rate, repeatability),
                1,
            ),
            r.position() == 0,
            r.reply() == Seq::<u8>::empty(),
            addressed_to(r.steps(), self.i2c_address()),
            r.fault() is None,
    {
        command_wait_exchange(self.address, rate.command(repeatability), COMMAND_DELAY_MS)
    }

    /// Finishes starting periodic acquisition with the command gap.
    pub fn start_periodic_and_wait<E>(
        self,
        repeatability: Repeatability,
        rate: PeriodicRate,
        ex: Exchange<I2cFailure<E>>,
    ) -> (r: ModeChange<I2C, SingleShotMode, PeriodicMode, E>)
        requires
            ex.steps() == command_wait_plan(self.i2c_address(), spec_periodic_command(rate, repeatability), 1),
            ex.done(),
        ensures
            mode_changed(self, ex, r),
    {
        self.finish_mode_change(ex)
    }

    /// Plans the start of ART (accelerated response time) acquisition.
    pub fn start_art_exchange<F>(&self) -> (r: Exchange<F>)
        ensures
            r.steps() == command_plan(self.i2c_address(), 0x2B32),
            r.position() == 0,
            r.reply() == Seq::<u8>::empty(),
            addressed_to(r.steps(), self.i2c_address()),
            r.fault() is None,
    {
        command_exchange(self.address, CMD_ART)
    }

    /// Finishes starting ART acquisition: on success the driver comes back in ART mode.
    pub fn start_art<E>(self, ex: Exchange<I2cFailure<E>>) -> (r: ModeChange<
        I2C,
        SingleShotMode,
        ArtMode,
        E,
    >)
        requires
            ex.steps() == command_plan(self.i2c_address(), 0x2B32),
            ex.done(),
        ensures
            mode_changed(self, ex, r),
    {
        self.finish_mode_change(ex)
    }

    /// Plans the start of ART acquisition followed by the 1 ms command gap.
    pub fn start_art_and_wait_exchange<F>(&self) -> (r: Exchange<F>)
        ensures
            r.steps() == command_wait_plan(self.i2c_address(), 0x2B32, 1),
            r.position() == 0,
            r.reply() == Seq::<u8>::empty(),
            addressed_to(r.steps(), self.i2c_address()),
            r.fault() is None,
    {
        command_wait_exchange(self.address, CMD_ART, COMMAND_DELAY_MS)
    }

    /// Finishes starting ART acquisition with the command gap.
    pub fn start_art_and_wait<E>(self, ex: Exchange<I2cFailure<E>>) -> (r: ModeChange<
        I2C,
        SingleShotMode,
        ArtMode,
        E,
    >)
        requires
            ex.steps() == command_wait_plan(self.i2c_address(), 0x2B32, 1),
            ex.done(),
        ensures
            mode_changed(self, ex, r),
    {
        self.finish_mode_change(ex)
    }

    /// Plans a soft reset: the reset command, then 2 ms (the datasheet
    /// maximum is 1.5 ms).
    pub fn soft_reset_exchange<F>(&self) -> (r: Exchange<F>)
        ensures
            r.steps() == command_wait_plan(self.i2c_address(), 0x30A2, 2),
            r.position() == 0,
            r.reply() == Seq::<u8>::empty(),
            addressed_to(r.steps(), self.i2c_address()),
            r.fault() is None,
    {
        command_wait_exchange(self.address, CMD_SOFT_RESET, RESET_DELAY_MS)
    }

    /// Result of a soft reset.
    pub fn soft_reset<E>(&mut self, ex: Exchange<I2cFailure<E>>) -> (r: Result<(), E>)
        requires
            ex.steps() == command_wait_plan(self.i2c_address(), 0x30A2, 2),
            ex.done(),
        ensures
            r == command_result(ex),
            *final(self) == *old(self),
    {
        finish_command(ex)
    }

    /// Plans an I2C general-call reset: byte `0x06` to address `0x00`, then
    /// 2 ms. Every compatible device on the bus segment may reset.
    pub fn general_call_reset_exchange<F>(&self) -> (r: Exchange<F>)
        ensures
            r.steps() == seq![Step::Write(0x00, seq![0x06u8]), Step::DelayMs(2)],
            r.position() == 0,
            r.reply() == Seq::<u8>::empty(),
            addressed_to(r.steps(), 0x00),
            r.fault() is None,
    {
        let bytes = vec![GENERAL_CALL_RESET];
        assert(bytes@ =~= seq![0x06u8]);
        let ops = vec![
            BusOp::Write { address: GENERAL_CALL_ADDRESS, bytes },
            BusOp::DelayMs { ms: RESET_DELAY_MS },
        ];
        assert(steps_of(ops@) =~= seq![Step::Write(0x00, seq![0x06u8]), Step::DelayMs(2)]);
        proof {
            reveal_with_fuel(reply_len, 3);
            lemma_sensor_plans_addressed(self.address, 0, 0, 0);
        }
        Exchange::new(ops)
    }

    /// Result of a general-call reset.
    pub fn general_call_reset<E>(&mut self, ex: Exchange<I2cFailure<E>>) -> (r: Result<(), E>)
        requires
            ex.steps() == seq![Step::Write(0x00, seq![0x06u8]), Step::DelayMs(2)],
            ex.done(),
        ensures
            r == command_result(ex),
            *final(self) == *old(self),
    {
        finish_command(ex)
    }

    /// Plans switching the internal heater on or off.
    pub fn set_heater_exchange<F>(&self, enabled: bool) -> (r: Exchange<F>)
        ensures
            r.steps() == command_plan(self.i2c_address(), heater_command_spec(enabled)),
            r.position() == 0,
            r.reply() == Seq::<u8>::empty(),
            addressed_to(r.steps(), self.i2c_address()),
            r.fault() is None,
    {
        command_exchange(self.address, heater_command(enabled))
    }

    /// Result of switching the heater.
    pub fn set_heater<E>(&mut self, enabled: bool, ex: Exchange<I2cFailure<E>>) -> (r: Result<(), E>)
        requires
            ex.steps() == command_plan(self.i2c_address(), heater_command_spec(enabled)),
            ex.done(),
        ensures
            r == command_result(ex),
            *final(self) == *old(self),
    {
        finish_command(ex)
    }

    /// Plans switching the heater followed by the 1 ms command gap.
    pub fn set_heater_and_wait_exchange<F>(&self, enabled: bool) -> (r: Exchange<F>)
        ensures
            r.steps() == command_wait_plan(self.i2c_address(), heater_command_spec(enabled), 1),
            r.position() == 0,
            r.reply() == Seq::<u8>::empty(),
            addressed_to(r.steps(), self.i2c_address()),
            r.fault() is None,
    {
        command_wait_exchange(self.address, heater_command(enabled), COMMAND_DELAY_MS)
    }

    /// Result of switching the heater with the command gap.
    pub fn set_heater_and_wait<E>(
        &mut self,
        enabled: bool,
        ex: Exchange<I2cFailure<E>>,
    ) -> (r: Result<(), E>)
        requires
            ex.steps() == command_wait_plan(self.i2c_address(), heater_command_spec(enabled), 1),
            ex.done(),
        ensures
            r == command_result(ex),
            *final(self) == *old(self),
    {
        finish_command(ex)
    }

    /// Plans reading the status register: the command, then a three-byte read.
    pub fn status_exchange<F>(&self) -> (r: Exchange<F>)
        ensures
            r.steps() == command_read_plan(self.i2c_address(), 0xF32D, 3),
            r.position() == 0,
            r.reply() == Seq::<u8>::empty(),
            addressed_to(r.steps(), self.i2c_address()),
            r.fault() is None,
            r.expected_reply_len() == 3,
    {
        command_read_exchange(self.address, CMD_READ_STATUS, 3)
    }

    /// Result of reading the status register: the CRC-checked word.
    pub fn status<E>(&mut self, ex: Exchange<I2cFailure<E>>) -> (r: Result<Status, E>)
        requires
            ex.steps() == command_read_plan(self.i2c_address(), 0xF32D, 3),
            ex.done(),
            ex.expected_reply_len() == 3,
        ensures
            r == status_result(ex),
            *final(self) == *old(self),
    {
        match ex.into_outcome() {
            Outcome::Completed(data) => parse_status(three_bytes(&data)),
            Outcome::Failed { fault, .. } => Err(Error::I2c(fault.error)),
        }
    }

    /// Plans clearing the status register flags.
    pub fn clear_status_exchange<F>(&self) -> (r: Exchange<F>)
        ensures
            r.steps() == command_plan(self.i2c_address(), 0x3041),
            r.position() == 0,
            r.reply() == Seq::<u8>::empty(),
            addressed_to(r.steps(), self.i2c_address()),
            r.fault() is None,
    {
        command_exchange(self.address, CMD_CLEAR_STATUS)
    }

    /// Result of clearing the status flags.
    pub fn clear_status<E>(&mut self, ex: Exchange<I2cFailure<E>>) -> (r: Result<(), E>)
        requires
            ex.steps() == command_plan(self.i2c_address(), 0x3041),
            ex.done(),
        ensures
            r == command_result(ex),
            *final(self) == *old(self),
    {
        finish_command(ex)
    }

    /// Plans clearing the status flags followed by the 1 ms command gap.
    pub fn clear_status_and_wait_exchange<F>(&self) -> (r: Exchange<F>)
        ensures
            r.steps() == command_wait_plan(self.i2c_address(), 0x3041, 1),
            r.position() == 0,
            r.reply() == Seq::<u8>::empty(),
            addressed_to(r.steps(), self.i2c_address()),
            r.fault() is None,
    {
        command_wait_exchange(self.address, CMD_CLEAR_STATUS, COMMAND_DELAY_MS)
    }

    /// Result of clearing the status flags with the command gap.
    pub fn clear_status_and_wait<E>(&mut self, ex: Exchange<I2cFailure<E>>) -> (r: Result<(), E>)
        requires
            ex.steps() == command_wait_plan(self.i2c_address(), 0x3041, 1),
            ex.done(),
        ensures
            r == command_result(ex),
            *final(self) == *old(self),
    {
        finish_command(ex)
    }
}

impl<I2C> Sht3x<I2C, PeriodicMode> {
    /// Plans fetching one periodic sample: the fetch command, then a six-byte read.
    pub fn fetch_raw_exchange<F>(&self) -> (r: Exchange<F>)
        ensures
            r.steps() == command_read_plan(self.i2c_address(), 0xE000, 6),
            r.position() == 0,
            r.reply() == Seq::<u8>::empty(),
            addressed_to(r.steps(), self.i2c_address()),
            r.fault() is None,
            r.expected_reply_len() == 6,
    {
        self.fetch_exchange()
    }

    /// Result of a periodic fetch. A NACK of the read header means no sample
    /// is ready yet and becomes [`Error::NotReady`].
    pub fn fetch_raw<E>(&mut self, ex: Exchange<I2cFailure<E>>) -> (r: Result<RawMeasurement, E>)
        requires
            ex.steps() == command_read_plan(self.i2c_address(), 0xE000, 6),
            ex.done(),
            ex.expected_reply_len() == 6,
        ensures
            r == fetch_result(ex),
            *final(self) == *old(self),
    {
        self.finish_fetch(ex)
    }

    /// Plans stopping periodic acquisition: the break command, then 1 ms.
    pub fn stop_periodic_exchange<F>(&self) -> (r: Exchange<F>)
        ensures
            r.steps() == command_wait_plan(self.i2c_address(), 0x3093, 1),
            r.position() == 0,
            r.reply() == Seq::<u8>::empty(),
            addressed_to(r.steps(), self.i2c_address()),
            r.fault() is None,
    {
        self.stop_exchange()
    }

    /// Finishes stopping periodic acquisition: on success the driver comes back
    /// in single-shot mode.
    pub fn stop_periodic<E>(self, ex: Exchange<I2cFailure<E>>) -> (r: ModeChange<
        I2C,
        PeriodicMode,
        SingleShotMode,
        E,
    >)
        requires
            ex.steps() == command_wait_plan(self.i2c_address(), 0x3093, 1),
            ex.done(),
        ensures
            mode_changed(self, ex, r),
    {
        self.finish_stop(ex)
    }
}

impl<I2C> Sht3x<I2C, ArtMode> {
    /// Plans fetching one ART sample: the fetch command, then a six-byte read.
    pub fn fetch_raw_exchange<F>(&self) -> (r: Exchange<F>)
        ensures
            r.steps() == command_read_plan(self.i2c_address(), 0xE000, 6),
            r.position() == 0,
            r.reply() == Seq::<u8>::empty(),
            addressed_to(r.steps(), self.i2c_address()),
            r.fault() is None,
            r.expected_reply_len() == 6,
    {
        self.fetch_exchange()
    }

    /// Result of an ART fetch; see the periodic-mode `fetch_raw`.
    pub fn fetch_raw<E>(&mut self, ex: Exchange<I2cFailure<E>>) -> (r: Result<RawMeasurement, E>)
        requires
            ex.steps() == command_read_plan(self.i2c_address(), 0xE000, 6),
            ex.done(),
            ex.expected_reply_len() == 6,
        ensures
            r == fetch_result(ex),
            *final(self) == *old(self),
    {
        self.finish_fetch(ex)
    }

    /// Plans stopping ART acquisition: the break command, then 1 ms.
    pub fn stop_periodic_exchange<F>(&self) -> (r: Exchange<F>)
        ensures
            r.steps() == command_wait_plan(self.i2c_address(), 0x3093, 1),
            r.position() == 0,
            r.reply() == Seq::<u8>::empty(),
            addressed_to(r.steps(), self.i2c_address()),
            r.fault() is None,
    {
        self.stop_exchange()
    }

    /// Finishes stopping ART acquisition: on success the driver comes back in
    /// single-shot mode.
    pub fn stop_periodic<E>(self, ex: Exchange<I2cFailure<E>>) -> (r: ModeChange<
        I2C,
        ArtMode,
        SingleShotMode,
        E,
    >)
        requires
            ex.steps() == command_wait_plan(self.i2c_address(), 0x3093, 1),
            ex.done(),
        ensures
            mode_changed(self, ex, r),
    {
        self.finish_stop(ex)
    }
}

impl<I2C> From<I2C> for Sht3x<I2C> {
    /// Creates a driver using the default `0x44` address.
    fn from(i2c: I2C) -> (r: Self)
        ensures
            r.bus() == i2c,
            r.i2c_address() == 0x44,
    {
        Self::new(i2c)
    }
}

impl<I2C> vstd::std_specs::convert::FromSpecImpl<I2C> for Sht3x<I2C> {
    open spec fn obeys_from_spec() -> bool {
        true
    }

    closed spec fn from_spec(i2c: I2C) -> Self {
        Sht3x { i2c, address: 0x44, _mode: PhantomData }
    }
}

/// The heater command for the requested state.
fn heater_command(enabled: bool) -> (r: u16)
    ensures
        r == heater_command_spec(enabled),
{
    if enabled {
        CMD_HEATER_ENABLE
    } else {
        CMD_HEATER_DISABLE
    }
}

/// Every sensor operation talks only to the driver's address: whatever the
/// command, the wait and the read length, each write and read that a plan
/// holds goes to `address`. The general-call reset is the one exception: its
/// single write goes to the general-call address `0x00`. Together with the
/// result functions, which keep the driver's address (or hand it on
/// unchanged through a mode change), the address stays the same for the
/// driver's whole life.
pub proof fn lemma_sensor_plans_addressed(address: u8, command: u16, ms: u32, len: nat)
    ensures
        addressed_to(command_plan(address, command), address),
        addressed_to(command_wait_plan(address, command, ms), address),
        addressed_to(command_wait_read_plan(address, command, ms, len), address),
        addressed_to(command_read_plan(address, command, len), address),
        addressed_to(seq![Step::Write(0x00, seq![0x06u8]), Step::DelayMs(2)], 0x00),
{
    let a = command_plan(address, command);
    let b = command_wait_plan(address, command, ms);
    let c = command_wait_read_plan(address, command, ms, len);
    let d = command_read_plan(address, command, len);
    assert(a[0] == command_step(address, command));
    assert(b[0] == command_step(address, command) && b[1] == Step::DelayMs(ms));
    assert(c[0] == command_step(address, command) && c[1] == Step::DelayMs(ms) && c[2] == Step::Read(
        address,
        len,
    ));
    assert(d[0] == command_step(address, command) && d[1] == Step::Read(address, len));
    let g = seq![Step::Write(0x00, seq![0x06u8]), Step::DelayMs(2)];
    assert(g[0] == Step::Write(0x00, seq![0x06u8]) && g[1] == Step::DelayMs(2));
}

/// The heater follows the request: switching it on writes `30h 6Dh` and
/// switching it off writes `30h 66h`, so the two requests never send the
/// same command.
pub proof fn lemma_heater_commands(enabled: bool)
    ensures
        command_bytes(heater_command_spec(enabled)) == if enabled {
            seq![0x30u8, 0x6Du8]
        } else {
            seq![0x30u8, 0x66u8]
        },
        heater_command_spec(true) != heater_command_spec(false),
{
    assert(command_bytes(0x306Du16) =~= seq![0x30u8, 0x6Du8]);
    assert(command_bytes(0x3066u16) =~= seq![0x30u8, 0x66u8]);
}

/// A single-shot measurement takes the repeatability it is asked for: the
/// conversion delay is the datasheet maximum (4, 6, 15 ms; 5, 7, 16 ms at low
/// supply voltage), grows with the repeatability (low, medium, high) and is
/// longer at low supply voltage, and a measurement plan's command is the one
/// of its repeatability.
pub proof fn lemma_measurement_plan_follows_request(
    address: u8,
    repeatability: Repeatability,
    low_voltage: bool,
    len: nat,
)
    ensures
        measurement_plan(address, repeatability, low_voltage, len)[0] == command_step(
            address,
            spec_single_shot_command(repeatability, false),
        ),
        conversion_ms(Repeatability::Low, low_voltage) < conversion_ms(
            Repeatability::Medium,
            low_voltage,
        ) < conversion_ms(Repeatability::High, low_voltage),
        conversion_ms(repeatability, false) < conversion_ms(repeatability, true),
        conversion_ms(repeatability, low_voltage) == match (repeatability, low_voltage) {
            (Repeatability::Low, false) => 4u32,
            (Repeatability::Medium, false) => 6u32,
            (Repeatability::High, false) => 15u32,
            (Repeatability::Low, true) => 5u32,
            (Repeatability::Medium, true) => 7u32,
            (Repeatability::High, true) => 16u32,
        },
{
}

} // verus!
