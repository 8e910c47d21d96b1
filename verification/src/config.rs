//! Measurement configuration that an initialization applies to the sensor.

use vstd::prelude::*;

verus! {

/// How many samples the sensor takes and averages for one reading.
#[derive(Clone, Copy, Debug, PartialEq, Eq, Structural)]
pub enum Oversampling {
    /// The quantity is not measured.
    Skipped,
    /// One sample
    Oversampling1X,
    /// Two samples
    Oversampling2X,
    /// Four samples
    Oversampling4X,
    /// Eight samples
    Oversampling8X,
    /// Sixteen samples
    Oversampling16X,
}

/// Coefficient of the sensor's IIR filter, which damps short disturbances.
#[derive(Clone, Copy, Debug, PartialEq, Eq, Structural)]
pub enum IIRFilter {
    /// The filter is bypassed.
    Off,
    /// Coefficient 2
    Coefficient2,
    /// Coefficient 4
    Coefficient4,
    /// Coefficient 8
    Coefficient8,
    /// Coefficient 16
    Coefficient16,
}

/// Oversampling of the three quantities and the filter coefficient.
#[derive(Clone, Copy, Debug, PartialEq, Eq, Structural)]
pub struct Configuration {
    pub temperature_oversampling: Oversampling,
    pub pressure_oversampling: Oversampling,
    pub humidity_oversampling: Oversampling,
    pub iir_filter: IIRFilter,
}

/// The configuration of a plain initialization: temperature oversampled
/// twice, pressure sixteen times, humidity once, filter coefficient 16.
pub open spec fn standard_configuration() -> Configuration {
    Configuration {
        temperature_oversampling: Oversampling::Oversampling2X,
        pressure_oversampling: Oversampling::Oversampling16X,
        humidity_oversampling: Oversampling::Oversampling1X,
        iir_filter: IIRFilter::Coefficient16,
    }
}

/// The configuration that measures nothing and filters nothing.
pub open spec fn idle_configuration() -> Configuration {
    Configuration {
        temperature_oversampling: Oversampling::Skipped,
        pressure_oversampling: Oversampling::Skipped,
        humidity_oversampling: Oversampling::Skipped,
        iir_filter: IIRFilter::Off,
    }
}

impl Default for Configuration {
    /// Everything skipped and the filter off: the starting point for the
    /// `with_` methods.
    fn default() -> (configuration: Self)
        ensures
            configuration == idle_configuration(),
    {
        Configuration {
            temperature_oversampling: Oversampling::Skipped,
            pressure_oversampling: Oversampling::Skipped,
            humidity_oversampling: Oversampling::Skipped,
            iir_filter: IIRFilter::Off,
        }
    }
}

impl Configuration {
    /// Replaces the temperature oversampling and keeps the rest.
    pub fn with_temperature_oversampling(self, oversampling: Oversampling) -> (configuration: Self)
        ensures
            configuration == (Configuration { temperature_oversampling: oversampling, ..self }),
    {
        Configuration { temperature_oversampling: oversampling, ..self }
    }

    /// Replaces the pressure oversampling and keeps the rest.
    pub fn with_pressure_oversampling(self, oversampling: Oversampling) -> (configuration: Self)
        ensures
            configuration == (Configuration { pressure_oversampling: oversampling, ..self }),
    {
        Configuration { pressure_oversampling: oversampling, ..self }
    }

    /// Replaces the humidity oversampling and keeps the rest.
    pub fn with_humidity_oversampling(self, oversampling: Oversampling) -> (configuration: Self)
        ensures
            configuration == (Configuration { humidity_oversampling: oversampling, ..self }),
    {
        Configuration { humidity_oversampling: oversampling, ..self }
    }

    /// Replaces the filter coefficient and keeps the rest.
    pub fn with_iir_filter(self, filter: IIRFilter) -> (configuration: Self)
        ensures
            configuration == (Configuration { iir_filter: filter, ..self }),
    {
        Configuration { iir_filter: filter, ..self }
    }

    /// The configuration that a plain initialization applies.
    pub fn standard() -> (configuration: Self)
        ensures
            configuration == standard_configuration(),
    {
        Configuration::default()
            .with_humidity_oversampling(Oversampling::Oversampling1X)
            .with_pressure_oversampling(Oversampling::Oversampling16X)
            .with_temperature_oversampling(Oversampling::Oversampling2X)
            .with_iir_filter(IIRFilter::Coefficient16)
    }
}

} // verus!
