//! A range is read as its start, then its end.

use crate::byte_buffer::{BufferView, ByteBuffer};
use crate::byte_buffer_read::{map_read, moved_on, read_with, ByteBufferRead, ReadSpec};
use crate::byte_order::{ByteOrder, Endian};
use crate::error::{ByteBufferError, ErrorView};
use std::ops::{Range, RangeInclusive};
use vstd::prelude::*;

verus! {

/// What a read of two values in a row finds.
pub open spec fn read_pair_spec<A: ByteBufferRead, B: ByteBufferRead>(
    state: BufferView,
    order: ByteOrder,
) -> ReadSpec<(A::Model, B::Model)> {
    match A::read_spec(state, order) {
        (after, Err(e)) => (after, Err(e)),
        (after, Ok(first)) => map_read(
            B::read_spec(after, order),
            |second: B::Model| (first, second),
        ),
    }
}

/// Reads two values in a row in the byte order that `endian` names.
pub fn read_pair<A: ByteBufferRead, B: ByteBufferRead>(
    buffer: &mut ByteBuffer,
    endian: Endian,
) -> (r: Result<(A, B), ByteBufferError>)
    requires
        old(buffer).wf(),
    ensures
        final(buffer).wf(),
        moved_on(old(buffer)@, final(buffer)@),
        read_pair_spec::<A, B>(old(buffer)@, endian.order_on(old(buffer)@.native)) == (
            final(buffer)@,
            match r {
                Ok(pair) => Ok::<(A::Model, B::Model), ErrorView>((pair.0.model(), pair.1.model())),
                Err(e) => Err::<(A::Model, B::Model), ErrorView>(e@),
            },
        ),
{
    let first = read_with::<A>(buffer, endian)?;
    let second = read_with::<B>(buffer, endian)?;
    Ok((first, second))
}

/// Reads a range in the byte order that `endian` names.
pub fn read_range<T: ByteBufferRead>(buffer: &mut ByteBuffer, endian: Endian) -> (r: Result<
    Range<T>,
    ByteBufferError,
>)
    requires
        old(buffer).wf(),
    ensures
        final(buffer).wf(),
        moved_on(old(buffer)@, final(buffer)@),
        <Range<T>>::read_spec(old(buffer)@, endian.order_on(old(buffer)@.native)) == (
            final(buffer)@,
            match r {
                Ok(value) => Ok(value.model()),
                Err(e) => Err(e@),
            },
        ),
{
    let (start, end) = read_pair::<T, T>(buffer, endian)?;
    Ok(Range { start, end })
}

/// Reads an inclusive range in the byte order that `endian` names.
pub fn read_range_inclusive<T: ByteBufferRead>(buffer: &mut ByteBuffer, endian: Endian) -> (r:
    Result<RangeInclusive<T>, ByteBufferError>)
    requires
        old(buffer).wf(),
    ensures
        final(buffer).wf(),
        moved_on(old(buffer)@, final(buffer)@),
        <RangeInclusive<T>>::read_spec(old(buffer)@, endian.order_on(old(buffer)@.native)) == (
            final(buffer)@,
            match r {
                Ok(value) => Ok(value.model()),
                Err(e) => Err(e@),
            },
        ),
{
    let (start, end) = read_pair::<T, T>(buffer, endian)?;
    Ok(RangeInclusive::new(start, end))
}

impl<T: ByteBufferRead> ByteBufferRead for Range<T> {
    type Model = (T::Model, T::Model);

    open spec fn model(&self) -> (T::Model, T::Model) {
        (self.start.model(), self.end.model())
    }

    open spec fn read_spec(state: BufferView, order: ByteOrder) -> ReadSpec<(T::Model, T::Model)> {
        read_pair_spec::<T, T>(state, order)
    }

    fn read_from_bytey_buffer(buffer: &mut ByteBuffer) -> (r: Result<Self, ByteBufferError>) {
        read_range(buffer, Endian::Native)
    }

    fn read_from_bytey_buffer_le(buffer: &mut ByteBuffer) -> (r: Result<Self, ByteBufferError>) {
        read_range(buffer, Endian::Little)
    }

    fn read_from_bytey_buffer_be(buffer: &mut ByteBuffer) -> (r: Result<Self, ByteBufferError>) {
        read_range(buffer, Endian::Big)
    }
}

impl<T: ByteBufferRead> ByteBufferRead for RangeInclusive<T> {
    type Model = (T::Model, T::Model);

    open spec fn model(&self) -> (T::Model, T::Model) {
        (self@.start.model(), self@.end.model())
    }

    open spec fn read_spec(state: BufferView, order: ByteOrder) -> ReadSpec<(T::Model, T::Model)> {
        read_pair_spec::<T, T>(state, order)
    }

    fn read_from_bytey_buffer(buffer: &mut ByteBuffer) -> (r: Result<Self, ByteBufferError>) {
        read_range_inclusive(buffer, Endian::Native)
    }

    fn read_from_bytey_buffer_le(buffer: &mut ByteBuffer) -> (r: Result<Self, ByteBufferError>) {
        read_range_inclusive(buffer, Endian::Little)
    }

    fn read_from_bytey_buffer_be(buffer: &mut ByteBuffer) -> (r: Result<Self, ByteBufferError>) {
        read_range_inclusive(buffer, Endian::Big)
    }
}

} // verus!
