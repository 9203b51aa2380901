//! A success or a failure: a tag byte, 1 for `Ok` and 2 for `Err`, then the value that the
//! variant holds. Any other tag is a failure.

use crate::byte_buffer::{BufferView, ByteBuffer};
use crate::byte_buffer_read::{map_read, moved_on, read_with, ByteBufferRead, ReadSpec};
use crate::byte_order::{ByteOrder, Endian};
use crate::error::{ByteBufferError, ErrorView};
use vstd::prelude::*;

verus! {

/// Reads a success or a failure in the byte order that `endian` names.
pub fn read_result<T: ByteBufferRead, E: ByteBufferRead>(
    buffer: &mut ByteBuffer,
    endian: Endian,
) -> (r: Result<Result<T, E>, ByteBufferError>)
    requires
        old(buffer).wf(),
    ensures
        final(buffer).wf(),
        moved_on(old(buffer)@, final(buffer)@),
        <Result<T, E>>::read_spec(old(buffer)@, endian.order_on(old(buffer)@.native)) == (
            final(buffer)@,
            match r {
                Ok(value) => Ok(value.model()),
                Err(e) => Err(e@),
            },
        ),
{
    let tag = read_with::<u8>(buffer, endian)?;
    if tag == 1 {
        let value = read_with::<T>(buffer, endian)?;
        Ok(Ok(value))
    } else if tag == 2 {
        let value = read_with::<E>(buffer, endian)?;
        Ok(Err(value))
    } else {
        Err(ByteBufferError::other_str("Invalid Read to Result"))
    }
}

impl<T: ByteBufferRead, E: ByteBufferRead> ByteBufferRead for Result<T, E> {
    type Model = Result<T::Model, E::Model>;

    open spec fn model(&self) -> Result<T::Model, E::Model> {
        match self {
            Ok(value) => Ok(value.model()),
            Err(value) => Err(value.model()),
        }
    }

    open spec fn read_spec(state: BufferView, order: ByteOrder) -> ReadSpec<
        Result<T::Model, E::Model>,
    > {
        match u8::read_spec(state, order) {
            (after, Err(e)) => (after, Err(e)),
            (after, Ok(tag)) => if tag == 1 {
                map_read(T::read_spec(after, order), |value: T::Model| Ok(value))
            } else if tag == 2 {
                map_read(E::read_spec(after, order), |value: E::Model| Err(value))
            } else {
                (after, Err(ErrorView::OtherError { message: "Invalid Read to Result"@ }))
            },
        }
    }

    fn read_from_bytey_buffer(buffer: &mut ByteBuffer) -> (r: Result<Self, ByteBufferError>) {
        read_result(buffer, Endian::Native)
    }

    fn read_from_bytey_buffer_le(buffer: &mut ByteBuffer) -> (r: Result<Self, ByteBufferError>) {
        read_result(buffer, Endian::Little)
    }

    fn read_from_bytey_buffer_be(buffer: &mut ByteBuffer) -> (r: Result<Self, ByteBufferError>) {
        read_result(buffer, Endian::Big)
    }
}

} // verus!
