//! A character is written as its code point, a `u32`.

use crate::byte_buffer::ByteBuffer;
use crate::byte_buffer_write::integers::write_unsigned;
use crate::byte_buffer_write::{slice_write_outcome, ByteBufferWrite};
use crate::byte_order::{encode_unsigned, ByteOrder};
use crate::error::ByteBufferError;
use vstd::prelude::*;

verus! {

impl ByteBufferWrite for char {
    open spec fn wire(&self, order: ByteOrder) -> Seq<u8> {
        encode_unsigned(*self as u32 as nat, 4, order)
    }

    fn write_to_bytey_buffer(&self, buffer: &mut ByteBuffer) -> (r: Result<(), ByteBufferError>)
        ensures
            slice_write_outcome(old(buffer)@, self.wire(old(buffer)@.native), r, final(buffer)@),
    {
        let order = buffer.native_order();
        write_unsigned(buffer, *self as u32 as u128, 4, order)
    }

    fn write_to_bytey_buffer_le(&self, buffer: &mut ByteBuffer) -> (r: Result<(), ByteBufferError>)
        ensures
            slice_write_outcome(old(buffer)@, self.wire(ByteOrder::Little), r, final(buffer)@),
    {
        write_unsigned(buffer, *self as u32 as u128, 4, ByteOrder::Little)
    }

    fn write_to_bytey_buffer_be(&self, buffer: &mut ByteBuffer) -> (r: Result<(), ByteBufferError>)
        ensures
            slice_write_outcome(old(buffer)@, self.wire(ByteOrder::Big), r, final(buffer)@),
    {
        write_unsigned(buffer, *self as u32 as u128, 4, ByteOrder::Big)
    }
}

} // verus!
