//! A bound of a range: a tag byte, 0 for no bound, 1 for an inclusive and 2 for an
//! exclusive one, then the value where there is one. Any other tag is a failure.

use crate::byte_buffer::{BufferView, ByteBuffer};
use crate::byte_buffer_read::{map_read, moved_on, read_with, ByteBufferRead, ReadSpec};
use crate::byte_order::{ByteOrder, Endian};
use crate::error::{ByteBufferError, ErrorView};
use core::ops::Bound;
use vstd::prelude::*;

verus! {

/// Reads a bound in the byte order that `endian` names.
pub fn read_bound<T: ByteBufferRead>(buffer: &mut ByteBuffer, endian: Endian) -> (r: Result<
    Bound<T>,
    ByteBufferError,
>)
    requires
        old(buffer).wf(),
    ensures
        final(buffer).wf(),
        moved_on(old(buffer)@, final(buffer)@),
        <Bound<T>>::read_spec(old(buffer)@, endian.order_on(old(buffer)@.native)) == (
            final(buffer)@,
            match r {
                Ok(value) => Ok(value.model()),
                Err(e) => Err(e@),
            },
        ),
{
    let tag = read_with::<u8>(buffer, endian)?;
    if tag == 0 {
        Ok(Bound::Unbounded)
    } else if tag == 1 {
        let value = read_with::<T>(buffer, endian)?;
        Ok(Bound::Included(value))
    } else if tag == 2 {
        let value = read_with::<T>(buffer, endian)?;
        Ok(Bound::Excluded(value))
    } else {
        Err(ByteBufferError::other_str("Invalid Read to Bound"))
    }
}

impl<T: ByteBufferRead> ByteBufferRead for Bound<T> {
    type Model = Bound<T::Model>;

    open spec fn model(&self) -> Bound<T::Model> {
        match self {
            Bound::Unbounded => Bound::Unbounded,
            Bound::Included(value) => Bound::Included(value.model()),
            Bound::Excluded(value) => Bound::Excluded(value.model()),
        }
    }

    open spec fn read_spec(state: BufferView, order: ByteOrder) -> ReadSpec<Bound<T::Model>> {
        match u8::read_spec(state, order) {
            (after, Err(e)) => (after, Err(e)),
            (after, Ok(tag)) => if tag == 0 {
                (after, Ok(Bound::Unbounded))
            } else if tag == 1 {
                map_read(T::read_spec(after, order), |value: T::Model| Bound::Included(value))
            } else if tag == 2 {
                map_read(T::read_spec(after, order), |value: T::Model| Bound::Excluded(value))
            } else {
                (after, Err(ErrorView::OtherError { message: "Invalid Read to Bound"@ }))
            },
        }
    }

    fn read_from_bytey_buffer(buffer: &mut ByteBuffer) -> (r: Result<Self, ByteBufferError>) {
        read_bound(buffer, Endian::Native)
    }

    fn read_from_bytey_buffer_le(buffer: &mut ByteBuffer) -> (r: Result<Self, ByteBufferError>) {
        read_bound(buffer, Endian::Little)
    }

    fn read_from_bytey_buffer_be(buffer: &mut ByteBuffer) -> (r: Result<Self, ByteBufferError>) {
        read_bound(buffer, Endian::Big)
    }
}

} // verus!
