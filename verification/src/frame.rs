//! Framing of register accesses.
//!
//! The link has no direction signal of its own, so the top bit of the
//! address byte carries it: set for a read, cleared for a write. The other
//! seven bits select the register. Every access is one full-duplex
//! transfer, described here as a request that the host performs and then
//! hands the outcome back to.

use vstd::prelude::*;
use crate::error::bus_failure;
use crate::error::root_cause;
use crate::error::surface;
use crate::error::surfaced;
use crate::error::Error;
use crate::error::SPIError;

verus! {

/// Top bit of the address byte: set, the access is a read.
pub const READ_MARKER: u8 = 0x80;

/// The seven address bits that select a register.
pub const REGISTER_MASK: u8 = 0x7f;

/// Address byte that reads from `register`.
pub open spec fn read_address(register: u8) -> u8 {
    register | 0x80
}

/// Address byte that writes to `register`.
pub open spec fn write_address(register: u8) -> u8 {
    register & 0x7f
}

/// One full-duplex transfer as the bus sees it: the bytes that are sent,
/// and how many bytes are captured while they and any further clock cycles
/// pass.
pub struct Frame {
    pub outbound: Seq<u8>,
    pub inbound_len: nat,
}

/// The frame of a burst read of `len` bytes that starts at `register`.
pub open spec fn read_frame(register: u8, len: nat) -> Frame {
    Frame { outbound: seq![read_address(register)], inbound_len: len }
}

/// The frame that writes `payload` to `register`.
pub open spec fn write_frame(register: u8, payload: u8) -> Frame {
    Frame { outbound: seq![write_address(register), payload], inbound_len: 0 }
}

/// Computes the address byte that reads from `register`.
pub fn encode_read_address(register: u8) -> (address: u8)
    ensures
        address == read_address(register),
{
    register | READ_MARKER
}

/// Computes the address byte that writes to `register`.
pub fn encode_write_address(register: u8) -> (address: u8)
    ensures
        address == write_address(register),
{
    register & REGISTER_MASK
}

/// A read address carries the marker and selects the register that was
/// asked for. A register given with the marker already set, as the
/// sensor's memory map lists them, goes out unchanged.
pub proof fn lemma_read_address(register: u8)
    by (bit_vector)
    ensures
        read_address(register) & 0x80 == 0x80,
        read_address(register) & 0x7f == register & 0x7f,
        register < 0x80 ==> read_address(register) == register + 0x80,
        register >= 0x80 ==> read_address(register) == register,
{
}

/// A write address carries no marker and selects the register that was
/// asked for. A bare seven-bit register goes out unchanged.
pub proof fn lemma_write_address(register: u8)
    by (bit_vector)
    ensures
        write_address(register) & 0x80 == 0,
        write_address(register) & 0x7f == register & 0x7f,
        register < 0x80 ==> write_address(register) == register,
        register >= 0x80 ==> write_address(register) == register - 0x80,
{
}

/// No address byte serves both directions: whatever the registers, a read
/// is never taken for a write or a write for a read.
pub proof fn lemma_directions_apart(read: u8, written: u8)
    by (bit_vector)
    ensures
        read_address(read) != write_address(written),
{
}

/// The marker is all that tells the two addresses of a register apart:
/// each is got from the other, and two registers share an address in one
/// direction exactly if they share it in the other.
pub proof fn lemma_same_register(register: u8, other: u8)
    by (bit_vector)
    ensures
        write_address(read_address(register)) == write_address(register),
        read_address(write_address(register)) == read_address(register),
        read_address(register) == read_address(other) <==> write_address(register)
            == write_address(other),
{
}

/// A burst read of `N` bytes, framed and waiting to be put on the bus.
#[derive(Clone, Copy, Debug, PartialEq, Eq)]
pub struct ReadRequest<const N: usize> {
    address: u8,
}

/// What a read transfer yields: the captured block if the bus reported
/// success, else the failure alone, whatever the buffer holds.
pub open spec fn block_read<SPIE, const N: usize>(outcome: Result<(), SPIE>, inbound: [u8; N]) -> Result<
    [u8; N],
    SPIE,
> {
    match outcome {
        Ok(_) => Ok(inbound),
        Err(cause) => Err(cause),
    }
}

/// What a single-register read yields: the byte in the first inbound
/// position if the bus reported success, else the failure alone.
pub open spec fn register_read<SPIE>(outcome: Result<(), SPIE>, inbound: [u8; 1]) -> Result<u8, SPIE> {
    match outcome {
        Ok(_) => Ok(inbound[0]),
        Err(cause) => Err(cause),
    }
}

/// A transfer that the bus reported as done hands the caller what was
/// captured: the whole block, or for a single register the byte in the
/// first position.
pub proof fn lemma_success_surfaces<SPIE, const N: usize>(block: [u8; N], byte: [u8; 1])
    ensures
        surfaced(block_read::<SPIE, N>(Ok(()), block)) == Ok::<[u8; N], Error<SPIError<SPIE>>>(
            block,
        ),
        surfaced(register_read::<SPIE>(Ok(()), byte)) == Ok::<u8, Error<SPIError<SPIE>>>(byte[0]),
        surfaced(Ok::<(), SPIE>(())) == Ok::<(), Error<SPIError<SPIE>>>(()),
{
}

/// A failed transfer reaches the caller as the bus reported it, whatever
/// kind of access it was and whatever the inbound buffer holds: nothing of
/// the buffer is taken for data.
pub proof fn lemma_failure_surfaces<SPIE, const N: usize>(cause: SPIE, block: [u8; N], byte: [u8; 1])
    ensures
        surfaced(block_read(Err(cause), block)) == Err::<[u8; N], Error<SPIError<SPIE>>>(
            bus_failure(cause),
        ),
        surfaced(register_read(Err(cause), byte)) == Err::<u8, Error<SPIError<SPIE>>>(
            bus_failure(cause),
        ),
        surfaced(Err::<(), SPIE>(cause)) == Err::<(), Error<SPIError<SPIE>>>(bus_failure(cause)),
        root_cause(bus_failure(cause)) == cause,
{
}

impl<const N: usize> ReadRequest<N> {
    #[verifier::type_invariant]
    spec fn marked_as_read(self) -> bool {
        self.address & 0x80 == 0x80
    }

    /// The address byte as it goes out.
    pub closed spec fn address(self) -> u8 {
        self.address
    }

    /// The frame that this request puts on the bus.
    pub open spec fn frame(self) -> Frame {
        Frame { outbound: seq![self.address()], inbound_len: N as nat }
    }

    /// Frames a burst read of `N` bytes that starts at `register`.
    pub fn new(register: u8) -> (request: Self)
        ensures
            request.address() == read_address(register),
            request.frame() == read_frame(register, N as nat),
    {
        let address = encode_read_address(register);
        assert(address & 0x80 == 0x80) by (bit_vector)
            requires
                address == register | 0x80,
        ;
        ReadRequest { address }
    }

    /// The bytes to send: the address byte alone, with the read marker set.
    pub fn outbound(&self) -> (bytes: [u8; 1])
        ensures
            bytes@ == self.frame().outbound,
            bytes[0] & 0x80 == 0x80,
    {
        proof {
            use_type_invariant(self);
        }
        let bytes = [self.address];
        assert(bytes@ =~= seq![self.address]);
        bytes
    }

    /// The number of bytes to capture.
    pub fn inbound_len(&self) -> (len: usize)
        ensures
            len == self.frame().inbound_len,
            len == N,
    {
        N
    }

    /// The register at which the burst starts.
    pub fn register(&self) -> (register: u8)
        ensures
            register == write_address(self.address()),
            register < 0x80,
            read_address(register) == self.address(),
    {
        proof {
            use_type_invariant(self);
        }
        let address = self.address;
        let register = address & REGISTER_MASK;
        assert(register < 0x80 && (register | 0x80) == address) by (bit_vector)
            requires
                register == address & 0x7f,
                address & 0x80 == 0x80,
        ;
        register
    }

    /// Interprets what the bus answered. After a successful transfer the
    /// captured bytes are the block that was read; after a failed one the
    /// buffer holds nothing of value and only the failure is passed on.
    pub fn finish<SPIE>(self, outcome: Result<(), SPIE>, inbound: [u8; N]) -> (result: Result<
        [u8; N],
        Error<SPIError<SPIE>>,
    >)
        ensures
            result == surfaced(block_read(outcome, inbound)),
    {
        match outcome {
            Ok(()) => Ok(inbound),
            Err(cause) => surface(Err(cause)),
        }
    }
}

impl ReadRequest<1> {
    /// Interprets what the bus answered to a single-register read: the
    /// register's value is the one byte that was captured.
    pub fn finish_register<SPIE>(self, outcome: Result<(), SPIE>, inbound: [u8; 1]) -> (result: Result<
        u8,
        Error<SPIError<SPIE>>,
    >)
        ensures
            result == surfaced(register_read(outcome, inbound)),
    {
        match self.finish(outcome, inbound) {
            Ok(block) => Ok(block[0]),
            Err(error) => Err(error),
        }
    }
}

/// A single-register write, framed and waiting to be put on the bus.
#[derive(Clone, Copy, Debug, PartialEq, Eq)]
pub struct WriteRequest {
    address: u8,
    payload: u8,
}

impl WriteRequest {
    #[verifier::type_invariant]
    spec fn marked_as_write(self) -> bool {
        self.address & 0x80 == 0
    }

    /// The address byte as it goes out.
    pub closed spec fn address(self) -> u8 {
        self.address
    }

    /// The value that is written.
    pub closed spec fn payload(self) -> u8 {
        self.payload
    }

    /// The frame that this request puts on the bus.
    pub open spec fn frame(self) -> Frame {
        Frame { outbound: seq![self.address(), self.payload()], inbound_len: 0 }
    }

    /// Frames the write of `payload` to `register`.
    pub fn new(register: u8, payload: u8) -> (request: Self)
        ensures
            request.address() == write_address(register),
            request.payload() == payload,
            request.frame() == write_frame(register, payload),
    {
        let address = encode_write_address(register);
        assert(address & 0x80 == 0) by (bit_vector)
            requires
                address == register & 0x7f,
        ;
        WriteRequest { address, payload }
    }

    /// The bytes to send: the address byte with the read marker cleared,
    /// then the value.
    pub fn outbound(&self) -> (bytes: [u8; 2])
        ensures
            bytes@ == self.frame().outbound,
            bytes[0] & 0x80 == 0,
    {
        proof {
            use_type_invariant(self);
        }
        let bytes = [self.address, self.payload];
        assert(bytes@ =~= seq![self.address, self.payload]);
        bytes
    }

    /// The number of bytes to capture: none. What the bus clocks in during
    /// a write is not data.
    pub fn inbound_len(&self) -> (len: usize)
        ensures
            len == self.frame().inbound_len,
            len == 0,
    {
        0
    }

    /// The register that is written.
    pub fn register(&self) -> (register: u8)
        ensures
            register == self.address(),
            register < 0x80,
    {
        proof {
            use_type_invariant(self);
        }
        let address = self.address;
        assert(address < 0x80) by (bit_vector)
            requires
                address & 0x80 == 0,
        ;
        address
    }

    /// Interprets what the bus answered: the write is done if the transfer
    /// succeeded, else the failure is passed on. Nothing that came in is
    /// looked at.
    pub fn finish<SPIE>(self, outcome: Result<(), SPIE>) -> (result: Result<(), Error<SPIError<SPIE>>>)
        ensures
            result == surfaced(outcome),
    {
        surface(outcome)
    }
}

} // verus!
