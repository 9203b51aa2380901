//! The values of one byte: `u8`, `i8` and `bool`.

use crate::byte_buffer::{BufferView, ByteBuffer};
use crate::byte_buffer_read::integers::{read_unsigned, read_unsigned_spec};
use crate::byte_buffer_read::{map_read, ByteBufferRead, ReadSpec};
use crate::byte_order::{from_twos_complement, lemma_radix_values, raw_to_signed, ByteOrder};
use crate::error::ByteBufferError;
use vstd::prelude::*;

verus! {

/// A `u8` is read from one byte, whatever the order.
impl ByteBufferRead for u8 {
    type Model = u8;

    open spec fn model(&self) -> u8 {
        *self
    }

    open spec fn read_spec(state: BufferView, order: ByteOrder) -> ReadSpec<u8> {
        map_read(read_unsigned_spec(state, 1, order), |raw: nat| raw as u8)
    }

    fn read_from_bytey_buffer(buffer: &mut ByteBuffer) -> (r: Result<u8, ByteBufferError>) {
        proof {
            lemma_radix_values();
        }
        let order = buffer.native_order();
        let raw = read_unsigned(buffer, 1, order)?;
        Ok(raw as u8)
    }

    fn read_from_bytey_buffer_le(buffer: &mut ByteBuffer) -> (r: Result<u8, ByteBufferError>) {
        proof {
            lemma_radix_values();
        }
        let order = ByteOrder::Little;
        let raw = read_unsigned(buffer, 1, order)?;
        Ok(raw as u8)
    }

    fn read_from_bytey_buffer_be(buffer: &mut ByteBuffer) -> (r: Result<u8, ByteBufferError>) {
        proof {
            lemma_radix_values();
        }
        let order = ByteOrder::Big;
        let raw = read_unsigned(buffer, 1, order)?;
        Ok(raw as u8)
    }
}

/// An `i8` is read from one byte, its two's complement, whatever the order.
impl ByteBufferRead for i8 {
    type Model = i8;

    open spec fn model(&self) -> i8 {
        *self
    }

    open spec fn read_spec(state: BufferView, order: ByteOrder) -> ReadSpec<i8> {
        map_read(
            read_unsigned_spec(state, 1, order),
            |raw: nat| from_twos_complement(raw, 1) as i8,
        )
    }

    fn read_from_bytey_buffer(buffer: &mut ByteBuffer) -> (r: Result<i8, ByteBufferError>) {
        proof {
            lemma_radix_values();
        }
        let order = buffer.native_order();
        let raw = read_unsigned(buffer, 1, order)?;
        Ok(raw_to_signed(raw, 0x80) as i8)
    }

    fn read_from_bytey_buffer_le(buffer: &mut ByteBuffer) -> (r: Result<i8, ByteBufferError>) {
        proof {
            lemma_radix_values();
        }
        let order = ByteOrder::Little;
        let raw = read_unsigned(buffer, 1, order)?;
        Ok(raw_to_signed(raw, 0x80) as i8)
    }

    fn read_from_bytey_buffer_be(buffer: &mut ByteBuffer) -> (r: Result<i8, ByteBufferError>) {
        proof {
            lemma_radix_values();
        }
        let order = ByteOrder::Big;
        let raw = read_unsigned(buffer, 1, order)?;
        Ok(raw_to_signed(raw, 0x80) as i8)
    }
}

/// A `bool` is read from one byte: `false` from 0, `true` from every other byte.
impl ByteBufferRead for bool {
    type Model = bool;

    open spec fn model(&self) -> bool {
        *self
    }

    open spec fn read_spec(state: BufferView, order: ByteOrder) -> ReadSpec<bool> {
        map_read(read_unsigned_spec(state, 1, order), |raw: nat| raw != 0)
    }

    fn read_from_bytey_buffer(buffer: &mut ByteBuffer) -> (r: Result<bool, ByteBufferError>) {
        let order = buffer.native_order();
        let raw = read_unsigned(buffer, 1, order)?;
        Ok(raw != 0)
    }

    fn read_from_bytey_buffer_le(buffer: &mut ByteBuffer) -> (r: Result<bool, ByteBufferError>) {
        let order = ByteOrder::Little;
        let raw = read_unsigned(buffer, 1, order)?;
        Ok(raw != 0)
    }

    fn read_from_bytey_buffer_be(buffer: &mut ByteBuffer) -> (r: Result<bool, ByteBufferError>) {
        let order = ByteOrder::Big;
        let raw = read_unsigned(buffer, 1, order)?;
        Ok(raw != 0)
    }
}

} // verus!
