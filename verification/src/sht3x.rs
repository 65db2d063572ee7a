//! Driver for Sensirion SHT3x-DIS humidity and temperature sensors
//! (SHT30-DIS, SHT31-DIS, SHT35-DIS) on I2C.
pub mod driver;
pub mod types;

pub use driver::{ArtMode, ModeChange, ModeChangeError, PeriodicMode, Sht3x, SingleShotMode};
pub use types::{
    crc8, Address, DataWord, Error, FixedPointMeasurement, PeriodicRate, RawMeasurement,
    Repeatability, Result, Status,
};
