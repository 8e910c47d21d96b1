//! BME280 driver for sensors attached via SPI.

use vstd::prelude::*;
use crate::error::Error;
use crate::frame::read_frame;
use crate::frame::write_frame;
use crate::frame::ReadRequest;
use crate::frame::WriteRequest;

verus! {

/// Width of the measurement burst: the pressure, temperature and humidity
/// readings as the converter left them.
pub const BME280_P_T_H_DATA_LEN: usize = 8;

/// Width of the pressure and temperature calibration burst.
pub const BME280_P_T_CALIB_DATA_LEN: usize = 26;

/// Width of the humidity calibration burst.
pub const BME280_H_CALIB_DATA_LEN: usize = 7;

/// The factory-programmed correction coefficients as the sensor holds
/// them: the two calibration bursts, byte for byte.
#[derive(Clone, Copy, Debug, PartialEq, Eq)]
pub struct CalibrationData {
    pub pressure_temperature: [u8; BME280_P_T_CALIB_DATA_LEN],
    pub humidity: [u8; BME280_H_CALIB_DATA_LEN],
}

/// What every BME280 handle holds, whatever the bus: the register access
/// and the calibration, which is there once an initialization succeeded.
#[derive(Debug, Default)]
pub struct BME280Common<I> {
    /// register access over the bus
    pub interface: I,
    /// calibration data that was read from the sensor
    pub calibration: Option<CalibrationData>,
}

/// Representation of a BME280
#[derive(Debug, Default)]
pub struct BME280<SPI> {
    common: BME280Common<SPIInterface<SPI>>,
}

impl<SPI> BME280<SPI> {
    /// The bus handle that this device owns.
    pub closed spec fn spi(self) -> SPI {
        self.common.interface.spi
    }

    /// The calibration that this device has loaded, if any.
    pub closed spec fn calibration(self) -> Option<CalibrationData> {
        self.common.calibration
    }

    /// Create a new BME280 struct
    ///
    /// Always succeeds: the bus is taken over and not touched, and no
    /// calibration is loaded.
    pub fn new(spi: SPI) -> (result: Result<Self, Error<SPI>>)
        ensures
            result is Ok,
            result->Ok_0.spi() == spi,
            result->Ok_0.calibration() is None,
    {
        Ok(BME280 {
            common: BME280Common {
                interface: SPIInterface { spi },
                calibration: None,
            },
        })
    }

    /// The register access of this device.
    pub fn interface(&self) -> (interface: &SPIInterface<SPI>)
        ensures
            interface.spi == self.spi(),
    {
        &self.common.interface
    }

    /// The register access of this device, with its bus handle open to use.
    /// The calibration stays as it is.
    pub fn interface_mut(&mut self) -> (interface: &mut SPIInterface<SPI>)
        ensures
            interface.spi == old(self).spi(),
            final(self).spi() == final(interface).spi,
            final(self).calibration() == old(self).calibration(),
    {
        &mut self.common.interface
    }

    /// Tells whether an initialization has loaded the calibration.
    pub fn is_calibrated(&self) -> (loaded: bool)
        ensures
            loaded == self.calibration() is Some,
    {
        self.common.calibration.is_some()
    }

    /// The calibration that an initialization has loaded, if any.
    pub fn calibration_data(&self) -> (data: Option<CalibrationData>)
        ensures
            data == self.calibration(),
    {
        self.common.calibration
    }

    /// Commits the calibration of a successful initialization, both bursts
    /// at once. The bus handle stays as it is.
    pub fn store_calibration(&mut self, data: CalibrationData)
        ensures
            final(self).calibration() == Some(data),
            final(self).spi() == old(self).spi(),
    {
        self.common.calibration = Some(data);
    }

    /// Gives up the device and hands the bus back.
    pub fn release(self) -> (spi: SPI)
        ensures
            spi == self.spi(),
    {
        self.common.interface.spi
    }
}

/// Register access functions for SPI
#[derive(Debug, Default)]
pub struct SPIInterface<SPI> {
    /// concrete SPI device implementation
    pub spi: SPI,
}

impl<SPI> SPIInterface<SPI> {
    /// Frames the read of the one byte held by `register`.
    pub fn read_register(&self, register: u8) -> (request: ReadRequest<1>)
        ensures
            request.frame() == read_frame(register, 1),
    {
        self.read_any_register(register)
    }

    /// Frames the read of the measurement burst that starts at `register`.
    pub fn read_data(&self, register: u8) -> (request: ReadRequest<BME280_P_T_H_DATA_LEN>)
        ensures
            request.frame() == read_frame(register, 8),
    {
        self.read_any_register(register)
    }

    /// Frames the read of the pressure and temperature calibration burst
    /// that starts at `register`.
    pub fn read_pt_calib_data(&self, register: u8) -> (request: ReadRequest<BME280_P_T_CALIB_DATA_LEN>)
        ensures
            request.frame() == read_frame(register, 26),
    {
        self.read_any_register(register)
    }

    /// Frames the read of the humidity calibration burst that starts at
    /// `register`.
    pub fn read_h_calib_data(&self, register: u8) -> (request: ReadRequest<BME280_H_CALIB_DATA_LEN>)
        ensures
            request.frame() == read_frame(register, 7),
    {
        self.read_any_register(register)
    }

    /// Frames the write of `payload` to `register`.
    pub fn write_register(&self, register: u8, payload: u8) -> (request: WriteRequest)
        ensures
            request.frame() == write_frame(register, payload),
    {
        // If the first bit is 0, the register is written.
        WriteRequest::new(register, payload)
    }

    /// Frames a burst read of `N` bytes that starts at `register`.
    pub fn read_any_register<const N: usize>(&self, register: u8) -> (request: ReadRequest<N>)
        ensures
            request.frame() == read_frame(register, N as nat),
    {
        ReadRequest::new(register)
    }
}

} // verus!
