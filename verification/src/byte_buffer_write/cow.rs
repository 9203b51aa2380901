//! A borrowed-or-owned value is written as the value, whichever of the two it is.

use crate::byte_buffer::ByteBuffer;
use crate::byte_buffer_write::{write_outcome, write_with, ByteBufferWrite};
use crate::byte_order::{ByteOrder, Endian};
use crate::error::ByteBufferError;
use std::borrow::Cow;
use vstd::prelude::*;

verus! {

/// Writes `value` in the byte order that `endian` names.
pub fn write_cow<T: ByteBufferWrite + Clone>(
    value: &Cow<'_, T>,
    buffer: &mut ByteBuffer,
    endian: Endian,
) -> (r: Result<(), ByteBufferError>)
    requires
        old(buffer).wf(),
    ensures
        write_outcome(
            old(buffer)@,
            value.wire(endian.order_on(old(buffer)@.native)),
            r is Ok,
            final(buffer)@,
        ),
{
    match value {
        Cow::Borrowed(inner) => write_with(*inner, buffer, endian),
        Cow::Owned(inner) => write_with(inner, buffer, endian),
    }
}

impl<T: ByteBufferWrite + Clone> ByteBufferWrite for Cow<'_, T> {
    open spec fn wire(&self, order: ByteOrder) -> Seq<u8> {
        match self {
            Cow::Borrowed(inner) => inner.wire(order),
            Cow::Owned(inner) => inner.wire(order),
        }
    }

    fn write_to_bytey_buffer(&self, buffer: &mut ByteBuffer) -> (r: Result<(), ByteBufferError>) {
        write_cow(self, buffer, Endian::Native)
    }

    fn write_to_bytey_buffer_le(
        &self,
        buffer: &mut ByteBuffer,
    ) -> (r: Result<(), ByteBufferError>) {
        write_cow(self, buffer, Endian::Little)
    }

    fn write_to_bytey_buffer_be(
        &self,
        buffer: &mut ByteBuffer,
    ) -> (r: Result<(), ByteBufferError>) {
        write_cow(self, buffer, Endian::Big)
    }
}

} // verus!
