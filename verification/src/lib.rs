//! Register-access layer of a BME280 driver for sensors attached via SPI.
//!
//! The sensor multiplexes the direction of an access into the top bit of the
//! address byte. This crate builds the exact frames for register reads and
//! writes and turns what the bus answered into the driver's layered error
//! type. It never touches a bus itself: an operation is handed out as a
//! request, the host runs it as one full-duplex transfer, and the request
//! then interprets the outcome.

pub mod config;
pub mod error;
pub mod frame;
pub mod spi;

pub use config::Configuration;
pub use error::Error;
pub use error::SPIError;
pub use spi::BME280;
