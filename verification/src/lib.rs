//! A growable, cursor-addressed byte arena and a typed codec on top of it.
//!
//! [`ByteBuffer`](byte_buffer::ByteBuffer) owns the bytes, a length and a cursor. The traits
//! [`ByteBufferWrite`](byte_buffer_write::ByteBufferWrite) and
//! [`ByteBufferRead`](byte_buffer_read::ByteBufferRead) say how a value becomes bytes and
//! comes back, in the machine's byte order, in little-endian or in big-endian order.

pub mod error;
pub mod byte_order;
pub mod growth;
pub mod round_trip;
pub mod byte_buffer;
pub mod byte_buffer_write;
pub mod byte_buffer_read;
pub mod payload;
pub mod variant;

pub use byte_buffer::ByteBuffer;
pub use byte_buffer_read::ByteBufferRead;
pub use byte_buffer_write::ByteBufferWrite;
pub use byte_order::{ByteOrder, Endian};
pub use error::ByteBufferError;
