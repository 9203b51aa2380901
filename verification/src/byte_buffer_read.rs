//! Reading values from the arena.
//!
//! A type that implements [`ByteBufferRead`] says what a read finds in every arena
//! ([`read_spec`](ByteBufferRead::read_spec)) and reads its values at the cursor, in the
//! machine's byte order, in little-endian or in big-endian order.

use crate::byte_buffer::{BufferView, ByteBuffer};
use crate::byte_order::{ByteOrder, Endian};
use crate::error::{ByteBufferError, ErrorView};
use vstd::prelude::*;

pub mod arrays;
pub mod bound;
pub mod boxed;
pub mod byte;
pub mod character;
pub mod cow;
pub mod integers;
pub mod num;
pub mod option;
pub mod phantom;
pub mod range;
pub mod result;
pub mod string;
pub mod time;
pub mod tuple;

verus! {

/// What a read leaves: the arena after it, and the value that it found or the failure.
pub type ReadSpec<M> = (BufferView, Result<M, ErrorView>);

/// A value that can be read from a [`ByteBuffer`].
pub trait ByteBufferRead: Sized {
    /// What a value of this type is to specifications.
    type Model;

    /// The value as specifications see it. An implementation that verified code is to rely
    /// on says what it is.
    open spec fn model(&self) -> Self::Model {
        vstd::pervasive::arbitrary()
    }

    /// What a read finds in the arena `state`, where numbers are read in the given order. An
    /// implementation that verified code is to rely on says what it is.
    open spec fn read_spec(state: BufferView, order: ByteOrder) -> ReadSpec<Self::Model> {
        vstd::pervasive::arbitrary()
    }

    /// Reads a value at the cursor, numbers in the byte order of the machine.
    fn read_from_bytey_buffer(buffer: &mut ByteBuffer) -> (r: Result<Self, ByteBufferError>)
        requires
            old(buffer).wf(),
        ensures
            moved_on(old(buffer)@, final(buffer)@),
            Self::read_spec(old(buffer)@, old(buffer)@.native) == (
                final(buffer)@,
                match r {
                    Ok(value) => Ok::<Self::Model, ErrorView>(value.model()),
                    Err(e) => Err::<Self::Model, ErrorView>(e@),
                },
            ),
    ;

    /// Reads a value at the cursor, numbers in little-endian order.
    fn read_from_bytey_buffer_le(buffer: &mut ByteBuffer) -> (r: Result<Self, ByteBufferError>)
        requires
            old(buffer).wf(),
        ensures
            moved_on(old(buffer)@, final(buffer)@),
            Self::read_spec(old(buffer)@, ByteOrder::Little) == (
                final(buffer)@,
                match r {
                    Ok(value) => Ok::<Self::Model, ErrorView>(value.model()),
                    Err(e) => Err::<Self::Model, ErrorView>(e@),
                },
            ),
    ;

    /// Reads a value at the cursor, numbers in big-endian order.
    fn read_from_bytey_buffer_be(buffer: &mut ByteBuffer) -> (r: Result<Self, ByteBufferError>)
        requires
            old(buffer).wf(),
        ensures
            moved_on(old(buffer)@, final(buffer)@),
            Self::read_spec(old(buffer)@, ByteOrder::Big) == (
                final(buffer)@,
                match r {
                    Ok(value) => Ok::<Self::Model, ErrorView>(value.model()),
                    Err(e) => Err::<Self::Model, ErrorView>(e@),
                },
            ),
    ;
}

/// What a read returned, as specifications see it.
pub open spec fn seen<T: ByteBufferRead>(r: Result<T, ByteBufferError>) -> Result<
    T::Model,
    ErrorView,
> {
    match r {
        Ok(value) => Ok(value.model()),
        Err(e) => Err(e@),
    }
}

/// Whether `after` is `before` with the cursor moved on, and nothing else changed.
pub open spec fn moved_on(before: BufferView, after: BufferView) -> bool {
    &&& after == before.at(after.cursor)
    &&& before.cursor <= after.cursor <= before.length()
}

/// What every read from an arena promises: only the cursor has moved, and only forwards,
/// and the arena and the result are what [`read_spec`](ByteBufferRead::read_spec) says.
pub open spec fn read_outcome<T: ByteBufferRead>(
    before: BufferView,
    order: ByteOrder,
    r: Result<T, ByteBufferError>,
    after: BufferView,
) -> bool {
    &&& moved_on(before, after)
    &&& T::read_spec(before, order) == (after, seen(r))
}

/// What a read of `n` bytes finds: the bytes, with the cursor behind them, or the failure,
/// with the cursor where it was.
pub open spec fn read_bytes_spec(state: BufferView, n: nat) -> ReadSpec<Seq<u8>> {
    match state.take(n) {
        Ok(bytes) => (state.advance(n), Ok(bytes)),
        Err(e) => (state, Err(e)),
    }
}

/// The outcome `found` with `f` applied to the value, where there is one.
pub open spec fn map_read<A, B>(found: ReadSpec<A>, f: spec_fn(A) -> B) -> ReadSpec<B> {
    match found.1 {
        Ok(value) => (found.0, Ok(f(value))),
        Err(e) => (found.0, Err(e)),
    }
}

/// Reads a value in the byte order that `endian` names.
pub fn read_with<T: ByteBufferRead>(buffer: &mut ByteBuffer, endian: Endian) -> (r: Result<
    T,
    ByteBufferError,
>)
    requires
        old(buffer).wf(),
    ensures
        final(buffer).wf(),
        read_outcome::<T>(
            old(buffer)@,
            endian.order_on(old(buffer)@.native),
            r,
            final(buffer)@,
        ),
{
    match endian {
        Endian::Native => T::read_from_bytey_buffer(buffer),
        Endian::Little => T::read_from_bytey_buffer_le(buffer),
        Endian::Big => T::read_from_bytey_buffer_be(buffer),
    }
}

/// The unit value is read from no bytes at all.
impl ByteBufferRead for () {
    type Model = ();

    open spec fn model(&self) -> () {
        ()
    }

    open spec fn read_spec(state: BufferView, order: ByteOrder) -> ReadSpec<()> {
        (state, Ok(()))
    }

    fn read_from_bytey_buffer(buffer: &mut ByteBuffer) -> (r: Result<(), ByteBufferError>) {
        Ok(())
    }

    fn read_from_bytey_buffer_le(buffer: &mut ByteBuffer) -> (r: Result<(), ByteBufferError>) {
        Ok(())
    }

    fn read_from_bytey_buffer_be(buffer: &mut ByteBuffer) -> (r: Result<(), ByteBufferError>) {
        Ok(())
    }
}

} // verus!
