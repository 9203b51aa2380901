//! A boxed value is written as the value in the box.

use crate::byte_buffer::ByteBuffer;
use crate::byte_buffer_write::ByteBufferWrite;
use crate::byte_order::ByteOrder;
use crate::error::ByteBufferError;
use vstd::prelude::*;

verus! {

impl<T: ByteBufferWrite> ByteBufferWrite for Box<T> {
    open spec fn wire(&self, order: ByteOrder) -> Seq<u8> {
        (**self).wire(order)
    }

    fn write_to_bytey_buffer(&self, buffer: &mut ByteBuffer) -> (r: Result<(), ByteBufferError>) {
        (**self).write_to_bytey_buffer(buffer)
    }

    fn write_to_bytey_buffer_le(
        &self,
        buffer: &mut ByteBuffer,
    ) -> (r: Result<(), ByteBufferError>) {
        (**self).write_to_bytey_buffer_le(buffer)
    }

    fn write_to_bytey_buffer_be(
        &self,
        buffer: &mut ByteBuffer,
    ) -> (r: Result<(), ByteBufferError>) {
        (**self).write_to_bytey_buffer_be(buffer)
    }
}

} // verus!
