//! An optional value: a tag byte, 1 for a present value and 2 for an absent one, then the
//! value where it is present. Any other tag is a failure.

use crate::byte_buffer::{BufferView, ByteBuffer};
use crate::byte_buffer_read::{map_read, moved_on, read_with, ByteBufferRead, ReadSpec};
use crate::byte_order::{ByteOrder, Endian};
use crate::error::{ByteBufferError, ErrorView};
use vstd::prelude::*;

verus! {

/// Reads an optional value in the byte order that `endian` names.
pub fn read_option<T: ByteBufferRead>(buffer: &mut ByteBuffer, endian: Endian) -> (r: Result<
    Option<T>,
    ByteBufferError,
>)
    requires
        old(buffer).wf(),
    ensures
        final(buffer).wf(),
        moved_on(old(buffer)@, final(buffer)@),
        <Option<T>>::read_spec(old(buffer)@, endian.order_on(old(buffer)@.native)) == (
            final(buffer)@,
            match r {
                Ok(value) => Ok(value.model()),
                Err(e) => Err(e@),
            },
        ),
{
    let tag = read_with::<u8>(buffer, endian)?;
    if tag == 1 {
        let value = read_with::<T>(buffer, endian)?;
        Ok(Some(value))
    } else if tag == 2 {
        Ok(None)
    } else {
        Err(ByteBufferError::other_str("Invalid Read to Option"))
    }
}

impl<T: ByteBufferRead> ByteBufferRead for Option<T> {
    type Model = Option<T::Model>;

    open spec fn model(&self) -> Option<T::Model> {
        match self {
            Some(value) => Some(value.model()),
            None => None,
        }
    }

    open spec fn read_spec(state: BufferView, order: ByteOrder) -> ReadSpec<Option<T::Model>> {
        match u8::read_spec(state, order) {
            (after, Err(e)) => (after, Err(e)),
            (after, Ok(tag)) => if tag == 1 {
                map_read(T::read_spec(after, order), |value: T::Model| Some(value))
            } else if tag == 2 {
                (after, Ok(None))
            } else {
                (after, Err(ErrorView::OtherError { message: "Invalid Read to Option"@ }))
            },
        }
    }

    fn read_from_bytey_buffer(buffer: &mut ByteBuffer) -> (r: Result<Self, ByteBufferError>) {
        read_option(buffer, Endian::Native)
    }

    fn read_from_bytey_buffer_le(buffer: &mut ByteBuffer) -> (r: Result<Self, ByteBufferError>) {
        read_option(buffer, Endian::Little)
    }

    fn read_from_bytey_buffer_be(buffer: &mut ByteBuffer) -> (r: Result<Self, ByteBufferError>) {
        read_option(buffer, Endian::Big)
    }
}

} // verus!
