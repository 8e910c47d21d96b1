//! The layered error type: a device-level error wraps a transport-level
//! error, which wraps the failure value of the bus implementation.

use vstd::prelude::*;

verus! {

/// Error which occurred during an SPI transaction
#[derive(Clone, Copy, Debug, PartialEq, Eq)]
pub enum SPIError<SPIE> {
    /// The SPI implementation returned an error
    SPI(SPIE),
}

/// Error reported by a device-level operation
#[derive(Clone, Copy, Debug, PartialEq, Eq)]
pub enum Error<E> {
    /// The transport below failed to carry out a transaction
    Bus(E),
}

/// The device-level error for a bus failure `cause`: both layers wrapped
/// around the untouched value.
pub open spec fn bus_failure<SPIE>(cause: SPIE) -> Error<SPIError<SPIE>> {
    Error::Bus(SPIError::SPI(cause))
}

/// The bus failure at the bottom of a device-level error.
pub open spec fn root_cause<SPIE>(error: Error<SPIError<SPIE>>) -> SPIE {
    match error {
        Error::Bus(SPIError::SPI(cause)) => cause,
    }
}

/// What a caller sees of a bus outcome: success passes through, a failure
/// arrives wrapped in both layers.
pub open spec fn surfaced<T, SPIE>(outcome: Result<T, SPIE>) -> Result<T, Error<SPIError<SPIE>>> {
    match outcome {
        Ok(value) => Ok(value),
        Err(cause) => Err(bus_failure(cause)),
    }
}

impl<SPIE> SPIError<SPIE> {
    /// Hands back the failure value of the bus implementation.
    pub fn into_inner(self) -> (cause: SPIE)
        ensures
            self == SPIError::SPI(cause),
    {
        match self {
            SPIError::SPI(cause) => cause,
        }
    }
}

impl<E> Error<E> {
    /// Hands back the error of the layer below.
    pub fn into_inner(self) -> (inner: E)
        ensures
            self == Error::Bus(inner),
    {
        match self {
            Error::Bus(inner) => inner,
        }
    }
}

impl<SPIE> Error<SPIError<SPIE>> {
    /// Wraps a failure of the bus implementation into the device-level error.
    pub fn from_bus(cause: SPIE) -> (error: Self)
        ensures
            error == bus_failure(cause),
    {
        Error::Bus(SPIError::SPI(cause))
    }

    /// Unwraps both layers and hands back the failure of the bus
    /// implementation.
    pub fn into_root_cause(self) -> (cause: SPIE)
        ensures
            cause == root_cause(self),
            self == bus_failure(cause),
    {
        self.into_inner().into_inner()
    }
}

/// Passes a bus outcome up to the device level: a success is kept as it is,
/// a failure is wrapped, never dropped, retried or replaced.
pub fn surface<T, SPIE>(outcome: Result<T, SPIE>) -> (result: Result<T, Error<SPIError<SPIE>>>)
    ensures
        result == surfaced(outcome),
{
    match outcome {
        Ok(value) => Ok(value),
        Err(cause) => Err(Error::from_bus(cause)),
    }
}

/// Wrapping loses nothing: the failure found at the bottom of the
/// device-level error is the failure that the bus reported, and two errors
/// are equal only if their causes are.
pub proof fn lemma_bus_failure_lossless<SPIE>(cause: SPIE, other: SPIE)
    ensures
        root_cause(bus_failure(cause)) == cause,
        bus_failure(cause) == bus_failure(other) <==> cause == other,
{
}

/// Every device-level error over this transport is the wrapping of its root
/// cause: there is no error without a bus failure behind it.
pub proof fn lemma_error_is_bus_failure<SPIE>(error: Error<SPIError<SPIE>>)
    ensures
        error == bus_failure(root_cause(error)),
{
}

} // verus!
