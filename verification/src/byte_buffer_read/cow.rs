//! A borrowed-or-owned value is read as the value, which the result then owns.

use crate::byte_buffer::{BufferView, ByteBuffer};
use crate::byte_buffer_read::{map_read, moved_on, read_with, ByteBufferRead, ReadSpec};
use crate::byte_order::{ByteOrder, Endian};
use crate::error::ByteBufferError;
use std::borrow::Cow;
use vstd::prelude::*;

verus! {

/// Reads an owned value in the byte order that `endian` names.
pub fn read_cow<'a, T: ByteBufferRead + Clone>(
    buffer: &mut ByteBuffer,
    endian: Endian,
) -> (r: Result<Cow<'a, T>, ByteBufferError>)
    requires
        old(buffer).wf(),
    ensures
        final(buffer).wf(),
        moved_on(old(buffer)@, final(buffer)@),
        <Cow<'a, T>>::read_spec(old(buffer)@, endian.order_on(old(buffer)@.native)) == (
            final(buffer)@,
            match r {
                Ok(value) => Ok(value.model()),
                Err(e) => Err(e@),
            },
        ),
{
    let value = read_with::<T>(buffer, endian)?;
    Ok(Cow::Owned(value))
}

impl<'a, T: ByteBufferRead + Clone> ByteBufferRead for Cow<'a, T> {
    type Model = T::Model;

    open spec fn model(&self) -> T::Model {
        match self {
            Cow::Borrowed(value) => value.model(),
            Cow::Owned(value) => value.model(),
        }
    }

    open spec fn read_spec(state: BufferView, order: ByteOrder) -> ReadSpec<T::Model> {
        T::read_spec(state, order)
    }

    fn read_from_bytey_buffer(buffer: &mut ByteBuffer) -> (r: Result<Self, ByteBufferError>) {
        read_cow(buffer, Endian::Native)
    }

    fn read_from_bytey_buffer_le(buffer: &mut ByteBuffer) -> (r: Result<Self, ByteBufferError>) {
        read_cow(buffer, Endian::Little)
    }

    fn read_from_bytey_buffer_be(buffer: &mut ByteBuffer) -> (r: Result<Self, ByteBufferError>) {
        read_cow(buffer, Endian::Big)
    }
}

} // verus!
