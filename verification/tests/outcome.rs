//! What a finished transfer means to the caller, and the error layers.

use bme280::error::surface;
use bme280::error::Error;
use bme280::error::SPIError;
use bme280::frame::encode_read_address;
use bme280::frame::encode_write_address;
use bme280::frame::ReadRequest;
use bme280::frame::WriteRequest;
use bme280::frame::READ_MARKER;
use bme280::frame::REGISTER_MASK;

#[test]
fn marker_and_mask_split_the_address_byte() {
    assert_eq!(READ_MARKER, 0x80);
    assert_eq!(REGISTER_MASK, 0x7f);
    assert_eq!(READ_MARKER | REGISTER_MASK, 0xff);
    assert_eq!(READ_MARKER & REGISTER_MASK, 0x00);
}

#[test]
fn address_bytes_of_known_registers() {
    assert_eq!(encode_read_address(0xD0), 0xD0);
    assert_eq!(encode_read_address(0x50), 0xD0);
    assert_eq!(encode_read_address(0x00), 0x80);
    assert_eq!(encode_read_address(0x7f), 0xff);
    assert_eq!(encode_write_address(0xF4), 0x74);
    assert_eq!(encode_write_address(0x74), 0x74);
    assert_eq!(encode_write_address(0x00), 0x00);
    assert_eq!(encode_write_address(0xff), 0x7f);
}

#[test]
fn no_address_byte_serves_both_directions() {
    for read in 0u8..=0xff {
        assert_eq!(encode_read_address(read) & 0x80, 0x80);
        assert_eq!(encode_read_address(read) & 0x7f, read & 0x7f);
        assert_eq!(encode_write_address(read) & 0x80, 0x00);
        assert_eq!(encode_write_address(read) & 0x7f, read & 0x7f);
        assert_eq!(encode_write_address(encode_read_address(read)), encode_write_address(read));
        assert_eq!(encode_read_address(encode_write_address(read)), encode_read_address(read));
        for written in 0u8..=0xff {
            assert_ne!(encode_read_address(read), encode_write_address(written));
        }
    }
}

#[test]
fn read_request_describes_its_frame() {
    let request = ReadRequest::<8>::new(0x77);
    assert_eq!(request.outbound(), [0xF7]);
    assert_eq!(request.inbound_len(), 8);
    assert_eq!(request.register(), 0x77);
    assert_eq!(request, ReadRequest::<8>::new(0xF7));
    assert_ne!(request, ReadRequest::<8>::new(0x76));
}

#[test]
fn write_request_describes_its_frame() {
    let request = WriteRequest::new(0xF4, 0x27);
    assert_eq!(request.outbound(), [0x74, 0x27]);
    assert_eq!(request.inbound_len(), 0);
    assert_eq!(request.register(), 0x74);
    assert_eq!(request, WriteRequest::new(0x74, 0x27));
    assert_ne!(request, WriteRequest::new(0x74, 0x28));
}

#[test]
fn finished_register_read_yields_the_first_byte() {
    for byte in 0u8..=0xff {
        let request = ReadRequest::<1>::new(0xD0);
        assert_eq!(request.finish_register::<i32>(Ok(()), [byte]), Ok(byte));
    }
}

#[test]
fn finished_block_read_yields_the_buffer() {
    let request = ReadRequest::<7>::new(0xE1);
    assert_eq!(request.finish::<i32>(Ok(()), [7, 6, 5, 4, 3, 2, 1]), Ok([7, 6, 5, 4, 3, 2, 1]));
}

#[test]
fn failed_read_yields_the_failure_and_no_bytes() {
    let request = ReadRequest::<1>::new(0xD0);
    assert_eq!(request.finish_register(Err(-5), [0x4B]), Err(Error::Bus(SPIError::SPI(-5))));
    let request = ReadRequest::<2>::new(0xD0);
    assert_eq!(request.finish(Err(-5), [0x4B, 0x4C]), Err(Error::Bus(SPIError::SPI(-5))));
}

#[test]
fn finished_write_yields_nothing_or_the_failure() {
    let request = WriteRequest::new(0xE0, 0xB6);
    assert_eq!(request.finish::<i32>(Ok(())), Ok(()));
    assert_eq!(request.finish(Err("line dropped")), Err(Error::Bus(SPIError::SPI("line dropped"))));
}

#[test]
fn failure_is_wrapped_twice_and_unwrapped_unchanged() {
    let cause = (3u8, "overrun", [9i64, -9]);
    let error = Error::from_bus(cause);
    assert_eq!(error, Error::Bus(SPIError::SPI(cause)));
    assert_eq!(error.into_inner(), SPIError::SPI(cause));
    assert_eq!(error.into_inner().into_inner(), cause);
    assert_eq!(error.into_root_cause(), cause);
    assert_ne!(Error::from_bus(1), Error::from_bus(2));
}

#[test]
fn surfacing_keeps_success_and_wraps_failure() {
    assert_eq!(surface::<u8, i32>(Ok(0x4B)), Ok(0x4B));
    assert_eq!(surface::<u8, i32>(Err(17)), Err(Error::Bus(SPIError::SPI(17))));
    let owned: Result<(), String> = Err(String::from("no clock"));
    assert_eq!(surface(owned).unwrap_err().into_root_cause(), "no clock");
}
