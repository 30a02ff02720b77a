//! A bounds-checked, fixed-capacity byte buffer: the read primitive for
//! decoding binary wire formats. Every access is validated against the
//! buffer's fixed capacity before any byte is touched.

pub mod decimal;
pub mod error;
pub mod packet;

pub use error::OutOfBounds;
pub use packet::BytePacketBuffer;
pub use packet::CAPACITY;
