//! An optional value: a tag byte, 1 for a present value and 2 for an absent one, then the
//! value where it is present.

use crate::byte_buffer::ByteBuffer;
use crate::byte_buffer_write::result::write_tagged;
use crate::byte_buffer_write::{
    headed_write_failed, slice_write_outcome, write_outcome, write_tag, ByteBufferWrite,
};
use crate::byte_order::{ByteOrder, Endian};
use crate::error::ByteBufferError;
use vstd::prelude::*;

verus! {

/// Writes `value` in the byte order that `endian` names.
///
/// A tag that does not fit and cannot make the capacity grow leaves the arena as it was, and
/// the error says why the capacity could not grow. Behind the tag of a present value, the
/// write fails as the write of the value does.
pub fn write_option<T: ByteBufferWrite>(
    value: &Option<T>,
    buffer: &mut ByteBuffer,
    endian: Endian,
) -> (r: Result<(), ByteBufferError>)
    requires
        old(buffer).wf(),
    ensures
        write_outcome(
            old(buffer)@,
            value.wire(endian.order_on(old(buffer)@.native)),
            r is Ok,
            final(buffer)@,
        ),
        match value {
            Some(inner) => r matches Err(e) ==> headed_write_failed(
                old(buffer)@,
                seq![1u8],
                inner.wire(endian.order_on(old(buffer)@.native)),
                e,
                final(buffer)@,
            ),
            None => slice_write_outcome(old(buffer)@, seq![2u8], r, final(buffer)@),
        },
{
    match value {
        Some(inner) => write_tagged(1, inner, buffer, endian),
        None => write_tag(buffer, 2),
    }
}

impl<T: ByteBufferWrite> ByteBufferWrite for Option<T> {
    open spec fn wire(&self, order: ByteOrder) -> Seq<u8> {
        match self {
            Some(inner) => seq![1u8] + inner.wire(order),
            None => seq![2u8],
        }
    }

    fn write_to_bytey_buffer(&self, buffer: &mut ByteBuffer) -> (r: Result<(), ByteBufferError>)
        ensures
            match self {
                Some(inner) => r matches Err(e) ==> headed_write_failed(
                    old(buffer)@,
                    seq![1u8],
                    inner.wire(old(buffer)@.native),
                    e,
                    final(buffer)@,
                ),
                None => slice_write_outcome(old(buffer)@, seq![2u8], r, final(buffer)@),
            },
    {
        write_option(self, buffer, Endian::Native)
    }

    fn write_to_bytey_buffer_le(&self, buffer: &mut ByteBuffer) -> (r: Result<(), ByteBufferError>)
        ensures
            match self {
                Some(inner) => r matches Err(e) ==> headed_write_failed(
                    old(buffer)@,
                    seq![1u8],
                    inner.wire(ByteOrder::Little),
                    e,
                    final(buffer)@,
                ),
                None => slice_write_outcome(old(buffer)@, seq![2u8], r, final(buffer)@),
            },
    {
        write_option(self, buffer, Endian::Little)
    }

    fn write_to_bytey_buffer_be(&self, buffer: &mut ByteBuffer) -> (r: Result<(), ByteBufferError>)
        ensures
            match self {
                Some(inner) => r matches Err(e) ==> headed_write_failed(
                    old(buffer)@,
                    seq![1u8],
                    inner.wire(ByteOrder::Big),
                    e,
                    final(buffer)@,
                ),
                None => slice_write_outcome(old(buffer)@, seq![2u8], r, final(buffer)@),
            },
    {
        write_option(self, buffer, Endian::Big)
    }
}

} // verus!
