//! A boxed value is read as the value, which is then put in a box.

use crate::byte_buffer::{BufferView, ByteBuffer};
use crate::byte_buffer_read::{map_read, moved_on, read_with, ByteBufferRead, ReadSpec};
use crate::byte_order::{ByteOrder, Endian};
use crate::error::ByteBufferError;
use vstd::prelude::*;

verus! {

/// Reads a boxed value in the byte order that `endian` names.
pub fn read_boxed<T: ByteBufferRead>(buffer: &mut ByteBuffer, endian: Endian) -> (r: Result<
    Box<T>,
    ByteBufferError,
>)
    requires
        old(buffer).wf(),
    ensures
        final(buffer).wf(),
        moved_on(old(buffer)@, final(buffer)@),
        <Box<T>>::read_spec(old(buffer)@, endian.order_on(old(buffer)@.native)) == (
            final(buffer)@,
            match r {
                Ok(value) => Ok(value.model()),
                Err(e) => Err(e@),
            },
        ),
{
    let value = read_with::<T>(buffer, endian)?;
    Ok(Box::new(value))
}

impl<T: ByteBufferRead> ByteBufferRead for Box<T> {
    type Model = T::Model;

    open spec fn model(&self) -> T::Model {
        (**self).model()
    }

    open spec fn read_spec(state: BufferView, order: ByteOrder) -> ReadSpec<T::Model> {
        T::read_spec(state, order)
    }

    fn read_from_bytey_buffer(buffer: &mut ByteBuffer) -> (r: Result<Self, ByteBufferError>) {
        read_boxed(buffer, Endian::Native)
    }

    fn read_from_bytey_buffer_le(buffer: &mut ByteBuffer) -> (r: Result<Self, ByteBufferError>) {
        read_boxed(buffer, Endian::Little)
    }

    fn read_from_bytey_buffer_be(buffer: &mut ByteBuffer) -> (r: Result<Self, ByteBufferError>) {
        read_boxed(buffer, Endian::Big)
    }
}

} // verus!
