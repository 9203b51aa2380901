//! The integers of two bytes and more.

use crate::byte_buffer::{BufferView, ByteBuffer};
use crate::byte_buffer_read::{map_read, moved_on, ByteBufferRead, ReadSpec};
use crate::byte_order::{
    decode_unsigned, from_twos_complement, lemma_radix_values, lemma_usize_radix, radix,
    raw_to_signed, unsigned_from_bytes, usize_bytes, usize_width, ByteOrder,
};
use crate::error::{ByteBufferError, ErrorView};
use vstd::prelude::*;

verus! {

/// What a read of an unsigned integer of `width` bytes finds.
pub open spec fn read_unsigned_spec(state: BufferView, width: nat, order: ByteOrder) -> ReadSpec<
    nat,
> {
    match state.take(width) {
        Ok(bytes) => (state.advance(width), Ok(decode_unsigned(bytes, order))),
        Err(e) => (state, Err(e)),
    }
}

/// Reads an unsigned integer of `width` bytes in the given order.
pub fn read_unsigned(buffer: &mut ByteBuffer, width: usize, order: ByteOrder) -> (r: Result<
    u128,
    ByteBufferError,
>)
    requires
        old(buffer).wf(),
        width <= 16,
    ensures
        moved_on(old(buffer)@, final(buffer)@),
        read_unsigned_spec(old(buffer)@, width as nat, order) == (
            final(buffer)@,
            match r {
                Ok(raw) => Ok::<nat, ErrorView>(raw as nat),
                Err(e) => Err::<nat, ErrorView>(e@),
            },
        ),
        r matches Ok(raw) ==> raw < radix(width as nat),
{
    let bytes = buffer.read_slice(width)?;
    Ok(unsigned_from_bytes(bytes, order))
}

/// A `u16` is read from 2 bytes.
impl ByteBufferRead for u16 {
    type Model = u16;

    open spec fn model(&self) -> u16 {
        *self
    }

    open spec fn read_spec(state: BufferView, order: ByteOrder) -> ReadSpec<u16> {
        map_read(read_unsigned_spec(state, 2, order), |raw: nat| raw as u16)
    }

    fn read_from_bytey_buffer(buffer: &mut ByteBuffer) -> (r: Result<u16, ByteBufferError>) {
        proof {
            lemma_radix_values();
        }
        let order = buffer.native_order();
        let raw = read_unsigned(buffer, 2, order)?;
        Ok(raw as u16)
    }

    fn read_from_bytey_buffer_le(buffer: &mut ByteBuffer) -> (r: Result<u16, ByteBufferError>) {
        proof {
            lemma_radix_values();
        }
        let order = ByteOrder::Little;
        let raw = read_unsigned(buffer, 2, order)?;
        Ok(raw as u16)
    }

    fn read_from_bytey_buffer_be(buffer: &mut ByteBuffer) -> (r: Result<u16, ByteBufferError>) {
        proof {
            lemma_radix_values();
        }
        let order = ByteOrder::Big;
        let raw = read_unsigned(buffer, 2, order)?;
        Ok(raw as u16)
    }
}

/// A `u32` is read from 4 bytes.
impl ByteBufferRead for u32 {
    type Model = u32;

    open spec fn model(&self) -> u32 {
        *self
    }

    open spec fn read_spec(state: BufferView, order: ByteOrder) -> ReadSpec<u32> {
        map_read(read_unsigned_spec(state, 4, order), |raw: nat| raw as u32)
    }

    fn read_from_bytey_buffer(buffer: &mut ByteBuffer) -> (r: Result<u32, ByteBufferError>) {
        proof {
            lemma_radix_values();
        }
        let order = buffer.native_order();
        let raw = read_unsigned(buffer, 4, order)?;
        Ok(raw as u32)
    }

    fn read_from_bytey_buffer_le(buffer: &mut ByteBuffer) -> (r: Result<u32, ByteBufferError>) {
        proof {
            lemma_radix_values();
        }
        let order = ByteOrder::Little;
        let raw = read_unsigned(buffer, 4, order)?;
        Ok(raw as u32)
    }

    fn read_from_bytey_buffer_be(buffer: &mut ByteBuffer) -> (r: Result<u32, ByteBufferError>) {
        proof {
            lemma_radix_values();
        }
        let order = ByteOrder::Big;
        let raw = read_unsigned(buffer, 4, order)?;
        Ok(raw as u32)
    }
}

/// A `u64` is read from 8 bytes.
impl ByteBufferRead for u64 {
    type Model = u64;

    open spec fn model(&self) -> u64 {
        *self
    }

    open spec fn read_spec(state: BufferView, order: ByteOrder) -> ReadSpec<u64> {
        map_read(read_unsigned_spec(state, 8, order), |raw: nat| raw as u64)
    }

    fn read_from_bytey_buffer(buffer: &mut ByteBuffer) -> (r: Result<u64, ByteBufferError>) {
        proof {
            lemma_radix_values();
        }
        let order = buffer.native_order();
        let raw = read_unsigned(buffer, 8, order)?;
        Ok(raw as u64)
    }

    fn read_from_bytey_buffer_le(buffer: &mut ByteBuffer) -> (r: Result<u64, ByteBufferError>) {
        proof {
            lemma_radix_values();
        }
        let order = ByteOrder::Little;
        let raw = read_unsigned(buffer, 8, order)?;
        Ok(raw as u64)
    }

    fn read_from_bytey_buffer_be(buffer: &mut ByteBuffer) -> (r: Result<u64, ByteBufferError>) {
        proof {
            lemma_radix_values();
        }
        let order = ByteOrder::Big;
        let raw = read_unsigned(buffer, 8, order)?;
        Ok(raw as u64)
    }
}

/// A `u128` is read from 16 bytes.
impl ByteBufferRead for u128 {
    type Model = u128;

    open spec fn model(&self) -> u128 {
        *self
    }

    open spec fn read_spec(state: BufferView, order: ByteOrder) -> ReadSpec<u128> {
        map_read(read_unsigned_spec(state, 16, order), |raw: nat| raw as u128)
    }

    fn read_from_bytey_buffer(buffer: &mut ByteBuffer) -> (r: Result<u128, ByteBufferError>) {
        proof {
            lemma_radix_values();
        }
        let order = buffer.native_order();
        let raw = read_unsigned(buffer, 16, order)?;
        Ok(raw as u128)
    }

    fn read_from_bytey_buffer_le(buffer: &mut ByteBuffer) -> (r: Result<u128, ByteBufferError>) {
        proof {
            lemma_radix_values();
        }
        let order = ByteOrder::Little;
        let raw = read_unsigned(buffer, 16, order)?;
        Ok(raw as u128)
    }

    fn read_from_bytey_buffer_be(buffer: &mut ByteBuffer) -> (r: Result<u128, ByteBufferError>) {
        proof {
            lemma_radix_values();
        }
        let order = ByteOrder::Big;
        let raw = read_unsigned(buffer, 16, order)?;
        Ok(raw as u128)
    }
}

/// A `usize` is read from as many bytes as it has on the machine: 4 or 8.
impl ByteBufferRead for usize {
    type Model = usize;

    open spec fn model(&self) -> usize {
        *self
    }

    open spec fn read_spec(state: BufferView, order: ByteOrder) -> ReadSpec<usize> {
        map_read(read_unsigned_spec(state, usize_width(), order), |raw: nat| raw as usize)
    }

    fn read_from_bytey_buffer(buffer: &mut ByteBuffer) -> (r: Result<usize, ByteBufferError>) {
        proof {
            lemma_usize_radix();
        }
        let order = buffer.native_order();
        let raw = read_unsigned(buffer, usize_bytes(), order)?;
        Ok(raw as usize)
    }

    fn read_from_bytey_buffer_le(buffer: &mut ByteBuffer) -> (r: Result<usize, ByteBufferError>) {
        proof {
            lemma_usize_radix();
        }
        let order = ByteOrder::Little;
        let raw = read_unsigned(buffer, usize_bytes(), order)?;
        Ok(raw as usize)
    }

    fn read_from_bytey_buffer_be(buffer: &mut ByteBuffer) -> (r: Result<usize, ByteBufferError>) {
        proof {
            lemma_usize_radix();
        }
        let order = ByteOrder::Big;
        let raw = read_unsigned(buffer, usize_bytes(), order)?;
        Ok(raw as usize)
    }
}

/// An `i16` is read from the 2 bytes of its two's complement.
impl ByteBufferRead for i16 {
    type Model = i16;

    open spec fn model(&self) -> i16 {
        *self
    }

    open spec fn read_spec(state: BufferView, order: ByteOrder) -> ReadSpec<i16> {
        map_read(
            read_unsigned_spec(state, 2, order),
            |raw: nat| from_twos_complement(raw, 2) as i16,
        )
    }

    fn read_from_bytey_buffer(buffer: &mut ByteBuffer) -> (r: Result<i16, ByteBufferError>) {
        proof {
            lemma_radix_values();
        }
        let order = buffer.native_order();
        let raw = read_unsigned(buffer, 2, order)?;
        Ok(raw_to_signed(raw, 0x8000) as i16)
    }

    fn read_from_bytey_buffer_le(buffer: &mut ByteBuffer) -> (r: Result<i16, ByteBufferError>) {
        proof {
            lemma_radix_values();
        }
        let order = ByteOrder::Little;
        let raw = read_unsigned(buffer, 2, order)?;
        Ok(raw_to_signed(raw, 0x8000) as i16)
    }

    fn read_from_bytey_buffer_be(buffer: &mut ByteBuffer) -> (r: Result<i16, ByteBufferError>) {
        proof {
            lemma_radix_values();
        }
        let order = ByteOrder::Big;
        let raw = read_unsigned(buffer, 2, order)?;
        Ok(raw_to_signed(raw, 0x8000) as i16)
    }
}

/// An `i32` is read from the 4 bytes of its two's complement.
impl ByteBufferRead for i32 {
    type Model = i32;

    open spec fn model(&self) -> i32 {
        *self
    }

    open spec fn read_spec(state: BufferView, order: ByteOrder) -> ReadSpec<i32> {
        map_read(
            read_unsigned_spec(state, 4, order),
            |raw: nat| from_twos_complement(raw, 4) as i32,
        )
    }

    fn read_from_bytey_buffer(buffer: &mut ByteBuffer) -> (r: Result<i32, ByteBufferError>) {
        proof {
            lemma_radix_values();
        }
        let order = buffer.native_order();
        let raw = read_unsigned(buffer, 4, order)?;
        Ok(raw_to_signed(raw, 0x8000_0000) as i32)
    }

    fn read_from_bytey_buffer_le(buffer: &mut ByteBuffer) -> (r: Result<i32, ByteBufferError>) {
        proof {
            lemma_radix_values();
        }
        let order = ByteOrder::Little;
        let raw = read_unsigned(buffer, 4, order)?;
        Ok(raw_to_signed(raw, 0x8000_0000) as i32)
    }

    fn read_from_bytey_buffer_be(buffer: &mut ByteBuffer) -> (r: Result<i32, ByteBufferError>) {
        proof {
            lemma_radix_values();
        }
        let order = ByteOrder::Big;
        let raw = read_unsigned(buffer, 4, order)?;
        Ok(raw_to_signed(raw, 0x8000_0000) as i32)
    }
}

/// An `i64` is read from the 8 bytes of its two's complement.
impl ByteBufferRead for i64 {
    type Model = i64;

    open spec fn model(&self) -> i64 {
        *self
    }

    open spec fn read_spec(state: BufferView, order: ByteOrder) -> ReadSpec<i64> {
        map_read(
            read_unsigned_spec(state, 8, order),
            |raw: nat| from_twos_complement(raw, 8) as i64,
        )
    }

    fn read_from_bytey_buffer(buffer: &mut ByteBuffer) -> (r: Result<i64, ByteBufferError>) {
        proof {
            lemma_radix_values();
        }
        let order = buffer.native_order();
        let raw = read_unsigned(buffer, 8, order)?;
        Ok(raw_to_signed(raw, 0x8000_0000_0000_0000) as i64)
    }

    fn read_from_bytey_buffer_le(buffer: &mut ByteBuffer) -> (r: Result<i64, ByteBufferError>) {
        proof {
            lemma_radix_values();
        }
        let order = ByteOrder::Little;
        let raw = read_unsigned(buffer, 8, order)?;
        Ok(raw_to_signed(raw, 0x8000_0000_0000_0000) as i64)
    }

    fn read_from_bytey_buffer_be(buffer: &mut ByteBuffer) -> (r: Result<i64, ByteBufferError>) {
        proof {
            lemma_radix_values();
        }
        let order = ByteOrder::Big;
        let raw = read_unsigned(buffer, 8, order)?;
        Ok(raw_to_signed(raw, 0x8000_0000_0000_0000) as i64)
    }
}

/// An `i128` is read from the 16 bytes of its two's complement.
impl ByteBufferRead for i128 {
    type Model = i128;

    open spec fn model(&self) -> i128 {
        *self
    }

    open spec fn read_spec(state: BufferView, order: ByteOrder) -> ReadSpec<i128> {
        map_read(
            read_unsigned_spec(state, 16, order),
            |raw: nat| from_twos_complement(raw, 16) as i128,
        )
    }

    fn read_from_bytey_buffer(buffer: &mut ByteBuffer) -> (r: Result<i128, ByteBufferError>) {
        proof {
            lemma_radix_values();
        }
        let order = buffer.native_order();
        let raw = read_unsigned(buffer, 16, order)?;
        Ok(raw_to_signed(raw, 0x8000_0000_0000_0000_0000_0000_0000_0000) as i128)
    }

    fn read_from_bytey_buffer_le(buffer: &mut ByteBuffer) -> (r: Result<i128, ByteBufferError>) {
        proof {
            lemma_radix_values();
        }
        let order = ByteOrder::Little;
        let raw = read_unsigned(buffer, 16, order)?;
        Ok(raw_to_signed(raw, 0x8000_0000_0000_0000_0000_0000_0000_0000) as i128)
    }

    fn read_from_bytey_buffer_be(buffer: &mut ByteBuffer) -> (r: Result<i128, ByteBufferError>) {
        proof {
            lemma_radix_values();
        }
        let order = ByteOrder::Big;
        let raw = read_unsigned(buffer, 16, order)?;
        Ok(raw_to_signed(raw, 0x8000_0000_0000_0000_0000_0000_0000_0000) as i128)
    }
}

/// An `isize` is read from the bytes that its two's complement has on the machine: 4 or 8.
impl ByteBufferRead for isize {
    type Model = isize;

    open spec fn model(&self) -> isize {
        *self
    }

    open spec fn read_spec(state: BufferView, order: ByteOrder) -> ReadSpec<isize> {
        map_read(
            read_unsigned_spec(state, usize_width(), order),
            |raw: nat| from_twos_complement(raw, usize_width()) as isize,
        )
    }

    fn read_from_bytey_buffer(buffer: &mut ByteBuffer) -> (r: Result<isize, ByteBufferError>) {
        proof {
            lemma_usize_radix();
        }
        let order = buffer.native_order();
        let raw = read_unsigned(buffer, usize_bytes(), order)?;
        Ok(raw_to_signed(raw, isize::MAX as u128 + 1) as isize)
    }

    fn read_from_bytey_buffer_le(buffer: &mut ByteBuffer) -> (r: Result<isize, ByteBufferError>) {
        proof {
            lemma_usize_radix();
        }
        let order = ByteOrder::Little;
        let raw = read_unsigned(buffer, usize_bytes(), order)?;
        Ok(raw_to_signed(raw, isize::MAX as u128 + 1) as isize)
    }

    fn read_from_bytey_buffer_be(buffer: &mut ByteBuffer) -> (r: Result<isize, ByteBufferError>) {
        proof {
            lemma_usize_radix();
        }
        let order = ByteOrder::Big;
        let raw = read_unsigned(buffer, usize_bytes(), order)?;
        Ok(raw_to_signed(raw, isize::MAX as u128 + 1) as isize)
    }
}

} // verus!
