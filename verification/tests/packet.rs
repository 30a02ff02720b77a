use packet_buffer::BytePacketBuffer;
use packet_buffer::OutOfBounds;

#[test]
fn test_buffer_initialization() {
    let buffer: BytePacketBuffer = BytePacketBuffer::new();
    assert_eq!(buffer.pos(), 0);
    assert_eq!(buffer.capacity(), 512);
}

#[test]
fn test_initial_position() {
    let buffer: BytePacketBuffer = BytePacketBuffer::new();
    assert_eq!(buffer.pos(), 0);
}

#[test]
fn test_step_within_limits() {
    let mut buffer: BytePacketBuffer = BytePacketBuffer::new();
    assert!(buffer.step(10).is_ok());
    assert_eq!(buffer.pos(), 10);
}

#[test]
fn test_seek_within_limits() {
    let mut buffer: BytePacketBuffer = BytePacketBuffer::new();
    assert!(buffer.seek(152).is_ok());
    assert_eq!(buffer.pos(), 152);
}

#[test]
fn test_step_beyond_limits() {
    let mut buffer: BytePacketBuffer = BytePacketBuffer::new();
    let result: Result<(), OutOfBounds> = buffer.step(600);
    assert!(result.is_err());
    assert_eq!(
        result.unwrap_err().message(),
        "The number of steps 600 exceeded from position 0 the maximum capacity of the buffer (512)."
    );
}

#[test]
fn test_seek_beyond_limits() {
    let mut buffer: BytePacketBuffer = BytePacketBuffer::new();
    let result: Result<(), OutOfBounds> = buffer.seek(512);
    assert!(result.is_err());
    assert_eq!(
        result.unwrap_err().message(),
        "The position 512 is not valid because the maximum position is 511."
    );
}

#[test]
fn test_step_to_the_boundary() {
    let mut buffer: BytePacketBuffer = BytePacketBuffer::new();
    assert!(buffer.step(511).is_ok());
    assert_eq!(buffer.pos(), 511);
}

#[test]
fn test_step_exact_overflow() {
    let mut buffer: BytePacketBuffer = BytePacketBuffer::new();
    assert!(buffer.step(512).is_err());
}

#[test]
fn test_step_failure_leaves_cursor_unchanged() {
    let mut buffer: BytePacketBuffer = BytePacketBuffer::new();
    assert!(buffer.seek(100).is_ok());
    assert!(buffer.step(412).is_err());
    assert_eq!(buffer.pos(), 100);
}

#[test]
fn test_step_error_carries_context() {
    let mut buffer: BytePacketBuffer = BytePacketBuffer::new();
    let result: Result<(), OutOfBounds> = buffer.step(600);
    assert_eq!(
        result.unwrap_err(),
        OutOfBounds::Step { steps: 600, position: 0, capacity: 512 }
    );
}

#[test]
fn test_seek_error_carries_context() {
    let mut buffer: BytePacketBuffer = BytePacketBuffer::new();
    assert!(buffer.seek(152).is_ok());
    let result: Result<(), OutOfBounds> = buffer.seek(700);
    assert_eq!(result.unwrap_err(), OutOfBounds::Seek { position: 700, capacity: 512 });
    assert_eq!(buffer.pos(), 152);
}

#[test]
fn test_cursor_scenario() {
    let mut buffer: BytePacketBuffer = BytePacketBuffer::new();
    assert!(buffer.step(10).is_ok());
    assert_eq!(buffer.pos(), 10);
    assert!(buffer.seek(152).is_ok());
    assert_eq!(buffer.pos(), 152);
    assert!(buffer.seek(512).is_err());
    assert_eq!(buffer.pos(), 152);
    let mut fresh: BytePacketBuffer = BytePacketBuffer::new();
    assert!(fresh.step(600).is_err());
    assert_eq!(fresh.pos(), 0);
}

#[test]
fn test_read_from_fresh_storage_is_zero() {
    let mut buffer: BytePacketBuffer = BytePacketBuffer::new();
    assert!(buffer.seek(140).is_ok());
    assert_eq!(buffer.read(), Ok(0));
    assert_eq!(buffer.pos(), 141);
}

#[test]
fn test_get_does_not_move_cursor() {
    let buffer: BytePacketBuffer = BytePacketBuffer::new();
    assert_eq!(buffer.get(256), Ok(0));
    assert_eq!(buffer.pos(), 0);
}

#[test]
fn test_read_at_exhausted_cursor() {
    let mut buffer: BytePacketBuffer = BytePacketBuffer::new();
    assert!(buffer.seek(511).is_ok());
    assert_eq!(buffer.read(), Ok(0));
    assert_eq!(buffer.pos(), 512);
    let result: Result<u8, OutOfBounds> = buffer.read();
    assert_eq!(result, Err(OutOfBounds::Read));
    assert_eq!(buffer.pos(), 512);
    assert_eq!(
        result.unwrap_err().message(),
        "Maximum position reached so, no more bytes can be read."
    );
}

#[test]
fn test_get_at_exhausted_cursor() {
    let mut buffer: BytePacketBuffer = BytePacketBuffer::new();
    assert!(buffer.seek(511).is_ok());
    assert_eq!(buffer.read(), Ok(0));
    assert_eq!(buffer.get(3), Err(OutOfBounds::Read));
}

#[test]
fn test_read_u16_advances_by_two() {
    let mut buffer: BytePacketBuffer = BytePacketBuffer::new();
    assert_eq!(buffer.read_u16(), Ok(0));
    assert_eq!(buffer.pos(), 2);
}

#[test]
fn test_read_u16_partial_advance_on_failure() {
    let mut buffer: BytePacketBuffer = BytePacketBuffer::new();
    assert!(buffer.seek(511).is_ok());
    assert_eq!(buffer.read_u16(), Err(OutOfBounds::Read));
    assert_eq!(buffer.pos(), 512);
}

#[test]
fn test_read_u32_advances_by_four() {
    let mut buffer: BytePacketBuffer = BytePacketBuffer::new();
    assert_eq!(buffer.read_u32(), Ok(0));
    assert_eq!(buffer.pos(), 4);
}

#[test]
fn test_read_u32_partial_advance_on_failure() {
    let mut buffer: BytePacketBuffer = BytePacketBuffer::new();
    assert!(buffer.seek(509).is_ok());
    assert_eq!(buffer.read_u32(), Err(OutOfBounds::Read));
    assert_eq!(buffer.pos(), 512);
}

#[test]
fn test_get_range_returns_requested_bytes() {
    let buffer: BytePacketBuffer = BytePacketBuffer::new();
    let bytes: &[u8] = buffer.get_range(0, 10).unwrap();
    assert_eq!(bytes, &[0u8; 10][..]);
    assert_eq!(buffer.pos(), 0);
    assert_eq!(buffer.get_range(100, 411).unwrap().len(), 411);
}

#[test]
fn test_get_range_rejects_range_reaching_capacity() {
    let buffer: BytePacketBuffer = BytePacketBuffer::new();
    let result: Result<&[u8], OutOfBounds> = buffer.get_range(500, 12);
    assert_eq!(
        result.unwrap_err(),
        OutOfBounds::Range { start: 500, length: 12, capacity: 512 }
    );
    assert_eq!(
        buffer.get_range(500, 12).unwrap_err().message(),
        "The range starting from 500 with length 12 exceeded the limit (512)."
    );
    assert!(buffer.get_range(0, 512).is_err());
}
