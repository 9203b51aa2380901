//! The values of one byte: `u8`, `i8` and `bool`.

use crate::byte_buffer::ByteBuffer;
use crate::byte_buffer_write::integers::write_unsigned;
use crate::byte_buffer_write::{slice_write_outcome, ByteBufferWrite};
use crate::byte_order::{
    encode_signed, encode_unsigned, lemma_radix_values, signed_to_raw, ByteOrder,
};
use crate::error::ByteBufferError;
use vstd::prelude::*;

verus! {

/// One byte is its own encoding in either order.
pub proof fn lemma_byte_wire(value: u8, order: ByteOrder)
    ensures
        encode_unsigned(value as nat, 1, order) == seq![value],
{
    reveal_with_fuel(crate::byte_order::little_endian, 2);
    reveal_with_fuel(crate::byte_order::big_endian, 2);
    assert(encode_unsigned(value as nat, 1, order) =~= seq![value]);
}

/// A `u8` is written as one byte, whatever the order.
impl ByteBufferWrite for u8 {
    open spec fn wire(&self, order: ByteOrder) -> Seq<u8> {
        encode_unsigned(*self as nat, 1, order)
    }

    fn write_to_bytey_buffer(&self, buffer: &mut ByteBuffer) -> (r: Result<(), ByteBufferError>)
        ensures
            slice_write_outcome(old(buffer)@, self.wire(old(buffer)@.native), r, final(buffer)@),
    {
        let order = buffer.native_order();
        write_unsigned(buffer, *self as u128, 1, order)
    }

    fn write_to_bytey_buffer_le(&self, buffer: &mut ByteBuffer) -> (r: Result<(), ByteBufferError>)
        ensures
            slice_write_outcome(old(buffer)@, self.wire(ByteOrder::Little), r, final(buffer)@),
    {
        let order = ByteOrder::Little;
        write_unsigned(buffer, *self as u128, 1, order)
    }

    fn write_to_bytey_buffer_be(&self, buffer: &mut ByteBuffer) -> (r: Result<(), ByteBufferError>)
        ensures
            slice_write_outcome(old(buffer)@, self.wire(ByteOrder::Big), r, final(buffer)@),
    {
        let order = ByteOrder::Big;
        write_unsigned(buffer, *self as u128, 1, order)
    }
}

/// An `i8` is written as the one byte of its two's complement, whatever the order.
impl ByteBufferWrite for i8 {
    open spec fn wire(&self, order: ByteOrder) -> Seq<u8> {
        encode_signed(*self as int, 1, order)
    }

    fn write_to_bytey_buffer(&self, buffer: &mut ByteBuffer) -> (r: Result<(), ByteBufferError>)
        ensures
            slice_write_outcome(old(buffer)@, self.wire(old(buffer)@.native), r, final(buffer)@),
    {
        proof {
            lemma_radix_values();
        }
        let order = buffer.native_order();
        let raw = signed_to_raw(*self as i128, 0x80);
        write_unsigned(buffer, raw, 1, order)
    }

    fn write_to_bytey_buffer_le(&self, buffer: &mut ByteBuffer) -> (r: Result<(), ByteBufferError>)
        ensures
            slice_write_outcome(old(buffer)@, self.wire(ByteOrder::Little), r, final(buffer)@),
    {
        proof {
            lemma_radix_values();
        }
        let order = ByteOrder::Little;
        let raw = signed_to_raw(*self as i128, 0x80);
        write_unsigned(buffer, raw, 1, order)
    }

    fn write_to_bytey_buffer_be(&self, buffer: &mut ByteBuffer) -> (r: Result<(), ByteBufferError>)
        ensures
            slice_write_outcome(old(buffer)@, self.wire(ByteOrder::Big), r, final(buffer)@),
    {
        proof {
            lemma_radix_values();
        }
        let order = ByteOrder::Big;
        let raw = signed_to_raw(*self as i128, 0x80);
        write_unsigned(buffer, raw, 1, order)
    }
}

/// A `bool` is written as one byte: 1 for `true`, 0 for `false`.
impl ByteBufferWrite for bool {
    open spec fn wire(&self, order: ByteOrder) -> Seq<u8> {
        if *self {
            seq![1u8]
        } else {
            seq![0u8]
        }
    }

    fn write_to_bytey_buffer(&self, buffer: &mut ByteBuffer) -> (r: Result<(), ByteBufferError>)
        ensures
            slice_write_outcome(old(buffer)@, self.wire(old(buffer)@.native), r, final(buffer)@),
    {
        let data: u8 = if *self {
            1
        } else {
            0
        };
        proof {
            lemma_byte_wire(data, buffer@.native);
        }
        data.write_to_bytey_buffer(buffer)
    }

    fn write_to_bytey_buffer_le(&self, buffer: &mut ByteBuffer) -> (r: Result<(), ByteBufferError>)
        ensures
            slice_write_outcome(old(buffer)@, self.wire(ByteOrder::Little), r, final(buffer)@),
    {
        let data: u8 = if *self {
            1
        } else {
            0
        };
        proof {
            lemma_byte_wire(data, ByteOrder::Little);
        }
        data.write_to_bytey_buffer_le(buffer)
    }

    fn write_to_bytey_buffer_be(&self, buffer: &mut ByteBuffer) -> (r: Result<(), ByteBufferError>)
        ensures
            slice_write_outcome(old(buffer)@, self.wire(ByteOrder::Big), r, final(buffer)@),
    {
        let data: u8 = if *self {
            1
        } else {
            0
        };
        proof {
            lemma_byte_wire(data, ByteOrder::Big);
        }
        data.write_to_bytey_buffer_be(buffer)
    }
}

} // verus!
