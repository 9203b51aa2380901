//! The integer wrappers `Wrapping` and `Saturating` are read as the integer in them. An
//! integer that must not be zero is read as an integer, and a zero is a failure.

use crate::byte_buffer::{BufferView, ByteBuffer};
use crate::byte_buffer_read::integers::{read_unsigned, read_unsigned_spec};
use crate::byte_buffer_read::{map_read, moved_on, read_with, ByteBufferRead, ReadSpec};
use crate::byte_order::{ByteOrder, Endian};
use crate::byte_order::radix;
use crate::error::{ByteBufferError, ErrorView};
use core::num::{Saturating, Wrapping};
use vstd::prelude::*;

verus! {

/// Reads a wrapping integer in the byte order that `endian` names.
pub fn read_wrapping<T: ByteBufferRead>(buffer: &mut ByteBuffer, endian: Endian) -> (r: Result<
    Wrapping<T>,
    ByteBufferError,
>)
    requires
        old(buffer).wf(),
    ensures
        final(buffer).wf(),
        moved_on(old(buffer)@, final(buffer)@),
        <Wrapping<T>>::read_spec(old(buffer)@, endian.order_on(old(buffer)@.native)) == (
            final(buffer)@,
            match r {
                Ok(value) => Ok(value.model()),
                Err(e) => Err(e@),
            },
        ),
{
    let value = read_with::<T>(buffer, endian)?;
    Ok(Wrapping(value))
}

impl<T: ByteBufferRead> ByteBufferRead for Wrapping<T> {
    type Model = T::Model;

    open spec fn model(&self) -> T::Model {
        self.0.model()
    }

    open spec fn read_spec(state: BufferView, order: ByteOrder) -> ReadSpec<T::Model> {
        T::read_spec(state, order)
    }

    fn read_from_bytey_buffer(buffer: &mut ByteBuffer) -> (r: Result<Self, ByteBufferError>) {
        read_wrapping(buffer, Endian::Native)
    }

    fn read_from_bytey_buffer_le(buffer: &mut ByteBuffer) -> (r: Result<Self, ByteBufferError>) {
        read_wrapping(buffer, Endian::Little)
    }

    fn read_from_bytey_buffer_be(buffer: &mut ByteBuffer) -> (r: Result<Self, ByteBufferError>) {
        read_wrapping(buffer, Endian::Big)
    }
}

/// Reads a saturating integer in the byte order that `endian` names.
pub fn read_saturating<T: ByteBufferRead>(buffer: &mut ByteBuffer, endian: Endian) -> (r: Result<
    Saturating<T>,
    ByteBufferError,
>)
    requires
        old(buffer).wf(),
    ensures
        final(buffer).wf(),
        moved_on(old(buffer)@, final(buffer)@),
        <Saturating<T>>::read_spec(old(buffer)@, endian.order_on(old(buffer)@.native)) == (
            final(buffer)@,
            match r {
                Ok(value) => Ok(value.model()),
                Err(e) => Err(e@),
            },
        ),
{
    let value = read_with::<T>(buffer, endian)?;
    Ok(Saturating(value))
}

impl<T: ByteBufferRead> ByteBufferRead for Saturating<T> {
    type Model = T::Model;

    open spec fn model(&self) -> T::Model {
        self.0.model()
    }

    open spec fn read_spec(state: BufferView, order: ByteOrder) -> ReadSpec<T::Model> {
        T::read_spec(state, order)
    }

    fn read_from_bytey_buffer(buffer: &mut ByteBuffer) -> (r: Result<Self, ByteBufferError>) {
        read_saturating(buffer, Endian::Native)
    }

    fn read_from_bytey_buffer_le(buffer: &mut ByteBuffer) -> (r: Result<Self, ByteBufferError>) {
        read_saturating(buffer, Endian::Little)
    }

    fn read_from_bytey_buffer_be(buffer: &mut ByteBuffer) -> (r: Result<Self, ByteBufferError>) {
        read_saturating(buffer, Endian::Big)
    }
}

/// What a read of an integer of `width` bytes that must not be zero finds: the integer as an
/// unsigned number, its two's complement where it is signed.
pub open spec fn read_non_zero_spec(state: BufferView, width: nat, order: ByteOrder) -> ReadSpec<
    nat,
> {
    match read_unsigned_spec(state, width, order) {
        (after, Err(e)) => (after, Err(e)),
        (after, Ok(raw)) => if raw == 0 {
            (after, Err(ErrorView::NonZeroIsZero))
        } else {
            (after, Ok(raw))
        },
    }
}

/// Reads an integer of `width` bytes that must not be zero, in the byte order that `endian`
/// names, and returns it as an unsigned number, its two's complement where it is signed.
///
/// Fails as the read of the bytes does, and with `NonZeroIsZero` where all the bytes are 0.
pub fn read_non_zero(buffer: &mut ByteBuffer, width: usize, endian: Endian) -> (r: Result<
    u128,
    ByteBufferError,
>)
    requires
        old(buffer).wf(),
        width <= 16,
    ensures
        final(buffer).wf(),
        moved_on(old(buffer)@, final(buffer)@),
        read_non_zero_spec(old(buffer)@, width as nat, endian.order_on(old(buffer)@.native)) == (
            final(buffer)@,
            match r {
                Ok(raw) => Ok::<nat, ErrorView>(raw as nat),
                Err(e) => Err::<nat, ErrorView>(e@),
            },
        ),
        r matches Ok(raw) ==> 0 < raw < radix(width as nat),
{
    let order = endian.resolve(buffer.native_order());
    let raw = read_unsigned(buffer, width, order)?;
    if raw == 0 {
        Err(ByteBufferError::NonZeroIsZero)
    } else {
        Ok(raw)
    }
}

} // verus!
