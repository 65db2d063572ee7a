//! Verified drivers for the Sensirion SHT3x-DIS humidity and temperature
//! sensor and the SSD1306 OLED display controller.
//!
//! The drivers are written without I/O: each operation plans a bus
//! [`bus::Exchange`], the caller carries it out on its I2C bus, delay source
//! and reset pin, and the driver turns the finished exchange into the result.
pub mod bus;
pub mod sht3x;
pub mod ssd1306;
