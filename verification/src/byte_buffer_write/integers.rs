//! The integers of two bytes and more.

use crate::byte_buffer::ByteBuffer;
use crate::byte_buffer_write::{slice_write_outcome, write_bytes, write_outcome, ByteBufferWrite};
use crate::byte_order::{
    encode_signed, encode_unsigned, lemma_radix_values, lemma_usize_radix, signed_to_raw,
    unsigned_to_bytes, usize_bytes, usize_width, ByteOrder,
};
use crate::error::ByteBufferError;
use vstd::prelude::*;

verus! {

/// Writes the `width` lowest bytes of `value` in the given order.
pub fn write_unsigned(buffer: &mut ByteBuffer, value: u128, width: usize, order: ByteOrder) -> (r:
    Result<(), ByteBufferError>)
    requires
        old(buffer).wf(),
        width <= 16,
    ensures
        slice_write_outcome(
            old(buffer)@,
            encode_unsigned(value as nat, width as nat, order),
            r,
            final(buffer)@,
        ),
        write_outcome(
            old(buffer)@,
            encode_unsigned(value as nat, width as nat, order),
            r is Ok,
            final(buffer)@,
        ),
{
    let bytes = unsigned_to_bytes(value, width, order);
    write_bytes(buffer, bytes.as_slice())
}

/// A `u16` is written as its 2 bytes.
impl ByteBufferWrite for u16 {
    open spec fn wire(&self, order: ByteOrder) -> Seq<u8> {
        encode_unsigned(*self as nat, 2, order)
    }

    fn write_to_bytey_buffer(&self, buffer: &mut ByteBuffer) -> (r: Result<(), ByteBufferError>)
        ensures
            slice_write_outcome(old(buffer)@, self.wire(old(buffer)@.native), r, final(buffer)@),
    {
        let order = buffer.native_order();
        write_unsigned(buffer, *self as u128, 2, order)
    }

    fn write_to_bytey_buffer_le(&self, buffer: &mut ByteBuffer) -> (r: Result<(), ByteBufferError>)
        ensures
            slice_write_outcome(old(buffer)@, self.wire(ByteOrder::Little), r, final(buffer)@),
    {
        let order = ByteOrder::Little;
        write_unsigned(buffer, *self as u128, 2, order)
    }

    fn write_to_bytey_buffer_be(&self, buffer: &mut ByteBuffer) -> (r: Result<(), ByteBufferError>)
        ensures
            slice_write_outcome(old(buffer)@, self.wire(ByteOrder::Big), r, final(buffer)@),
    {
        let order = ByteOrder::Big;
        write_unsigned(buffer, *self as u128, 2, order)
    }
}

/// A `u32` is written as its 4 bytes.
impl ByteBufferWrite for u32 {
    open spec fn wire(&self, order: ByteOrder) -> Seq<u8> {
        encode_unsigned(*self as nat, 4, order)
    }

    fn write_to_bytey_buffer(&self, buffer: &mut ByteBuffer) -> (r: Result<(), ByteBufferError>)
        ensures
            slice_write_outcome(old(buffer)@, self.wire(old(buffer)@.native), r, final(buffer)@),
    {
        let order = buffer.native_order();
        write_unsigned(buffer, *self as u128, 4, order)
    }

    fn write_to_bytey_buffer_le(&self, buffer: &mut ByteBuffer) -> (r: Result<(), ByteBufferError>)
        ensures
            slice_write_outcome(old(buffer)@, self.wire(ByteOrder::Little), r, final(buffer)@),
    {
        let order = ByteOrder::Little;
        write_unsigned(buffer, *self as u128, 4, order)
    }

    fn write_to_bytey_buffer_be(&self, buffer: &mut ByteBuffer) -> (r: Result<(), ByteBufferError>)
        ensures
            slice_write_outcome(old(buffer)@, self.wire(ByteOrder::Big), r, final(buffer)@),
    {
        let order = ByteOrder::Big;
        write_unsigned(buffer, *self as u128, 4, order)
    }
}

/// A `u64` is written as its 8 bytes.
impl ByteBufferWrite for u64 {
    open spec fn wire(&self, order: ByteOrder) -> Seq<u8> {
        encode_unsigned(*self as nat, 8, order)
    }

    fn write_to_bytey_buffer(&self, buffer: &mut ByteBuffer) -> (r: Result<(), ByteBufferError>)
        ensures
            slice_write_outcome(old(buffer)@, self.wire(old(buffer)@.native), r, final(buffer)@),
    {
        let order = buffer.native_order();
        write_unsigned(buffer, *self as u128, 8, order)
    }

    fn write_to_bytey_buffer_le(&self, buffer: &mut ByteBuffer) -> (r: Result<(), ByteBufferError>)
        ensures
            slice_write_outcome(old(buffer)@, self.wire(ByteOrder::Little), r, final(buffer)@),
    {
        let order = ByteOrder::Little;
        write_unsigned(buffer, *self as u128, 8, order)
    }

    fn write_to_bytey_buffer_be(&self, buffer: &mut ByteBuffer) -> (r: Result<(), ByteBufferError>)
        ensures
            slice_write_outcome(old(buffer)@, self.wire(ByteOrder::Big), r, final(buffer)@),
    {
        let order = ByteOrder::Big;
        write_unsigned(buffer, *self as u128, 8, order)
    }
}

/// A `u128` is written as its 16 bytes.
impl ByteBufferWrite for u128 {
    open spec fn wire(&self, order: ByteOrder) -> Seq<u8> {
        encode_unsigned(*self as nat, 16, order)
    }

    fn write_to_bytey_buffer(&self, buffer: &mut ByteBuffer) -> (r: Result<(), ByteBufferError>)
        ensures
            slice_write_outcome(old(buffer)@, self.wire(old(buffer)@.native), r, final(buffer)@),
    {
        let order = buffer.native_order();
        write_unsigned(buffer, *self as u128, 16, order)
    }

    fn write_to_bytey_buffer_le(&self, buffer: &mut ByteBuffer) -> (r: Result<(), ByteBufferError>)
        ensures
            slice_write_outcome(old(buffer)@, self.wire(ByteOrder::Little), r, final(buffer)@),
    {
        let order = ByteOrder::Little;
        write_unsigned(buffer, *self as u128, 16, order)
    }

    fn write_to_bytey_buffer_be(&self, buffer: &mut ByteBuffer) -> (r: Result<(), ByteBufferError>)
        ensures
            slice_write_outcome(old(buffer)@, self.wire(ByteOrder::Big), r, final(buffer)@),
    {
        let order = ByteOrder::Big;
        write_unsigned(buffer, *self as u128, 16, order)
    }
}

/// A `usize` is written as the bytes that it has on the machine: 4 or 8.
impl ByteBufferWrite for usize {
    open spec fn wire(&self, order: ByteOrder) -> Seq<u8> {
        encode_unsigned(*self as nat, usize_width(), order)
    }

    fn write_to_bytey_buffer(&self, buffer: &mut ByteBuffer) -> (r: Result<(), ByteBufferError>)
        ensures
            slice_write_outcome(old(buffer)@, self.wire(old(buffer)@.native), r, final(buffer)@),
    {
        let order = buffer.native_order();
        write_unsigned(buffer, *self as u128, usize_bytes(), order)
    }

    fn write_to_bytey_buffer_le(&self, buffer: &mut ByteBuffer) -> (r: Result<(), ByteBufferError>)
        ensures
            slice_write_outcome(old(buffer)@, self.wire(ByteOrder::Little), r, final(buffer)@),
    {
        let order = ByteOrder::Little;
        write_unsigned(buffer, *self as u128, usize_bytes(), order)
    }

    fn write_to_bytey_buffer_be(&self, buffer: &mut ByteBuffer) -> (r: Result<(), ByteBufferError>)
        ensures
            slice_write_outcome(old(buffer)@, self.wire(ByteOrder::Big), r, final(buffer)@),
    {
        let order = ByteOrder::Big;
        write_unsigned(buffer, *self as u128, usize_bytes(), order)
    }
}

/// An `i16` is written as the 2 bytes of its two's complement.
impl ByteBufferWrite for i16 {
    open spec fn wire(&self, order: ByteOrder) -> Seq<u8> {
        encode_signed(*self as int, 2, order)
    }

    fn write_to_bytey_buffer(&self, buffer: &mut ByteBuffer) -> (r: Result<(), ByteBufferError>)
        ensures
            slice_write_outcome(old(buffer)@, self.wire(old(buffer)@.native), r, final(buffer)@),
    {
        proof {
            lemma_radix_values();
        }
        let order = buffer.native_order();
        let raw = signed_to_raw(*self as i128, 0x8000);
        write_unsigned(buffer, raw, 2, order)
    }

    fn write_to_bytey_buffer_le(&self, buffer: &mut ByteBuffer) -> (r: Result<(), ByteBufferError>)
        ensures
            slice_write_outcome(old(buffer)@, self.wire(ByteOrder::Little), r, final(buffer)@),
    {
        proof {
            lemma_radix_values();
        }
        let order = ByteOrder::Little;
        let raw = signed_to_raw(*self as i128, 0x8000);
        write_unsigned(buffer, raw, 2, order)
    }

    fn write_to_bytey_buffer_be(&self, buffer: &mut ByteBuffer) -> (r: Result<(), ByteBufferError>)
        ensures
            slice_write_outcome(old(buffer)@, self.wire(ByteOrder::Big), r, final(buffer)@),
    {
        proof {
            lemma_radix_values();
        }
        let order = ByteOrder::Big;
        let raw = signed_to_raw(*self as i128, 0x8000);
        write_unsigned(buffer, raw, 2, order)
    }
}

/// An `i32` is written as the 4 bytes of its two's complement.
impl ByteBufferWrite for i32 {
    open spec fn wire(&self, order: ByteOrder) -> Seq<u8> {
        encode_signed(*self as int, 4, order)
    }

    fn write_to_bytey_buffer(&self, buffer: &mut ByteBuffer) -> (r: Result<(), ByteBufferError>)
        ensures
            slice_write_outcome(old(buffer)@, self.wire(old(buffer)@.native), r, final(buffer)@),
    {
        proof {
            lemma_radix_values();
        }
        let order = buffer.native_order();
        let raw = signed_to_raw(*self as i128, 0x8000_0000);
        write_unsigned(buffer, raw, 4, order)
    }

    fn write_to_bytey_buffer_le(&self, buffer: &mut ByteBuffer) -> (r: Result<(), ByteBufferError>)
        ensures
            slice_write_outcome(old(buffer)@, self.wire(ByteOrder::Little), r, final(buffer)@),
    {
        proof {
            lemma_radix_values();
        }
        let order = ByteOrder::Little;
        let raw = signed_to_raw(*self as i128, 0x8000_0000);
        write_unsigned(buffer, raw, 4, order)
    }

    fn write_to_bytey_buffer_be(&self, buffer: &mut ByteBuffer) -> (r: Result<(), ByteBufferError>)
        ensures
            slice_write_outcome(old(buffer)@, self.wire(ByteOrder::Big), r, final(buffer)@),
    {
        proof {
            lemma_radix_values();
        }
        let order = ByteOrder::Big;
        let raw = signed_to_raw(*self as i128, 0x8000_0000);
        write_unsigned(buffer, raw, 4, order)
    }
}

/// An `i64` is written as the 8 bytes of its two's complement.
impl ByteBufferWrite for i64 {
    open spec fn wire(&self, order: ByteOrder) -> Seq<u8> {
        encode_signed(*self as int, 8, order)
    }

    fn write_to_bytey_buffer(&self, buffer: &mut ByteBuffer) -> (r: Result<(), ByteBufferError>)
        ensures
            slice_write_outcome(old(buffer)@, self.wire(old(buffer)@.native), r, final(buffer)@),
    {
        proof {
            lemma_radix_values();
        }
        let order = buffer.native_order();
        let raw = signed_to_raw(*self as i128, 0x8000_0000_0000_0000);
        write_unsigned(buffer, raw, 8, order)
    }

    fn write_to_bytey_buffer_le(&self, buffer: &mut ByteBuffer) -> (r: Result<(), ByteBufferError>)
        ensures
            slice_write_outcome(old(buffer)@, self.wire(ByteOrder::Little), r, final(buffer)@),
    {
        proof {
            lemma_radix_values();
        }
        let order = ByteOrder::Little;
        let raw = signed_to_raw(*self as i128, 0x8000_0000_0000_0000);
        write_unsigned(buffer, raw, 8, order)
    }

    fn write_to_bytey_buffer_be(&self, buffer: &mut ByteBuffer) -> (r: Result<(), ByteBufferError>)
        ensures
            slice_write_outcome(old(buffer)@, self.wire(ByteOrder::Big), r, final(buffer)@),
    {
        proof {
            lemma_radix_values();
        }
        let order = ByteOrder::Big;
        let raw = signed_to_raw(*self as i128, 0x8000_0000_0000_0000);
        write_unsigned(buffer, raw, 8, order)
    }
}

/// An `i128` is written as the 16 bytes of its two's complement.
impl ByteBufferWrite for i128 {
    open spec fn wire(&self, order: ByteOrder) -> Seq<u8> {
        encode_signed(*self as int, 16, order)
    }

    fn write_to_bytey_buffer(&self, buffer: &mut ByteBuffer) -> (r: Result<(), ByteBufferError>)
        ensures
            slice_write_outcome(old(buffer)@, self.wire(old(buffer)@.native), r, final(buffer)@),
    {
        proof {
            lemma_radix_values();
        }
        let order = buffer.native_order();
        let raw = signed_to_raw(*self as i128, 0x8000_0000_0000_0000_0000_0000_0000_0000);
        write_unsigned(buffer, raw, 16, order)
    }

    fn write_to_bytey_buffer_le(&self, buffer: &mut ByteBuffer) -> (r: Result<(), ByteBufferError>)
        ensures
            slice_write_outcome(old(buffer)@, self.wire(ByteOrder::Little), r, final(buffer)@),
    {
        proof {
            lemma_radix_values();
        }
        let order = ByteOrder::Little;
        let raw = signed_to_raw(*self as i128, 0x8000_0000_0000_0000_0000_0000_0000_0000);
        write_unsigned(buffer, raw, 16, order)
    }

    fn write_to_bytey_buffer_be(&self, buffer: &mut ByteBuffer) -> (r: Result<(), ByteBufferError>)
        ensures
            slice_write_outcome(old(buffer)@, self.wire(ByteOrder::Big), r, final(buffer)@),
    {
        proof {
            lemma_radix_values();
        }
        let order = ByteOrder::Big;
        let raw = signed_to_raw(*self as i128, 0x8000_0000_0000_0000_0000_0000_0000_0000);
        write_unsigned(buffer, raw, 16, order)
    }
}

/// An `isize` is written as the bytes that its two's complement has on the machine: 4 or 8.
impl ByteBufferWrite for isize {
    open spec fn wire(&self, order: ByteOrder) -> Seq<u8> {
        encode_signed(*self as int, usize_width(), order)
    }

    fn write_to_bytey_buffer(&self, buffer: &mut ByteBuffer) -> (r: Result<(), ByteBufferError>)
        ensures
            slice_write_outcome(old(buffer)@, self.wire(old(buffer)@.native), r, final(buffer)@),
    {
        proof {
            lemma_usize_radix();
        }
        let order = buffer.native_order();
        let raw = signed_to_raw(*self as i128, isize::MAX as u128 + 1);
        write_unsigned(buffer, raw, usize_bytes(), order)
    }

    fn write_to_bytey_buffer_le(&self, buffer: &mut ByteBuffer) -> (r: Result<(), ByteBufferError>)
        ensures
            slice_write_outcome(old(buffer)@, self.wire(ByteOrder::Little), r, final(buffer)@),
    {
        proof {
            lemma_usize_radix();
        }
        let order = ByteOrder::Little;
        let raw = signed_to_raw(*self as i128, isize::MAX as u128 + 1);
        write_unsigned(buffer, raw, usize_bytes(), order)
    }

    fn write_to_bytey_buffer_be(&self, buffer: &mut ByteBuffer) -> (r: Result<(), ByteBufferError>)
        ensures
            slice_write_outcome(old(buffer)@, self.wire(ByteOrder::Big), r, final(buffer)@),
    {
        proof {
            lemma_usize_radix();
        }
        let order = ByteOrder::Big;
        let raw = signed_to_raw(*self as i128, isize::MAX as u128 + 1);
        write_unsigned(buffer, raw, usize_bytes(), order)
    }
}

} // verus!
