//! A bound of a range: a tag byte, 0 for no bound, 1 for an inclusive and 2 for an
//! exclusive one, then the value where there is one.

use crate::byte_buffer::ByteBuffer;
use crate::byte_buffer_write::result::write_tagged;
use crate::byte_buffer_write::{
    headed_write_failed, slice_write_outcome, write_outcome, write_tag, ByteBufferWrite,
};
use crate::byte_order::{ByteOrder, Endian};
use crate::error::ByteBufferError;
use core::ops::Bound;
use vstd::prelude::*;

verus! {

/// `core::ops::Bound`, whose three variants the codec tells apart.
#[verifier::external_type_specification]
#[verifier::reject_recursive_types(T)]
pub struct ExBound<T>(Bound<T>);

/// Writes `value` in the byte order that `endian` names. Fails as
/// [`write_tagged`] does on the tag and the value of the variant.
pub fn write_bound<T: ByteBufferWrite>(
    value: &Bound<T>,
    buffer: &mut ByteBuffer,
    endian: Endian,
) -> (r: Result<(), ByteBufferError>)
    requires
        old(buffer).wf(),
    ensures
        write_outcome(
            old(buffer)@,
            value.wire(endian.order_on(old(buffer)@.native)),
            r is Ok,
            final(buffer)@,
        ),
        match value {
            Bound::Unbounded => slice_write_outcome(old(buffer)@, seq![0u8], r, final(buffer)@),
            Bound::Included(inner) => r matches Err(e) ==> headed_write_failed(
                old(buffer)@,
                seq![1u8],
                inner.wire(endian.order_on(old(buffer)@.native)),
                e,
                final(buffer)@,
            ),
            Bound::Excluded(inner) => r matches Err(e) ==> headed_write_failed(
                old(buffer)@,
                seq![2u8],
                inner.wire(endian.order_on(old(buffer)@.native)),
                e,
                final(buffer)@,
            ),
        },
{
    match value {
        Bound::Unbounded => write_tag(buffer, 0),
        Bound::Included(inner) => write_tagged(1, inner, buffer, endian),
        Bound::Excluded(inner) => write_tagged(2, inner, buffer, endian),
    }
}

impl<T: ByteBufferWrite> ByteBufferWrite for Bound<T> {
    open spec fn wire(&self, order: ByteOrder) -> Seq<u8> {
        match self {
            Bound::Unbounded => seq![0u8],
            Bound::Included(inner) => seq![1u8] + inner.wire(order),
            Bound::Excluded(inner) => seq![2u8] + inner.wire(order),
        }
    }

    fn write_to_bytey_buffer(&self, buffer: &mut ByteBuffer) -> (r: Result<(), ByteBufferError>)
        ensures
            match self {
                Bound::Unbounded => slice_write_outcome(old(buffer)@, seq![0u8], r, final(buffer)@),
                Bound::Included(inner) => r matches Err(e) ==> headed_write_failed(
                    old(buffer)@,
                    seq![1u8],
                    inner.wire(old(buffer)@.native),
                    e,
                    final(buffer)@,
                ),
                Bound::Excluded(inner) => r matches Err(e) ==> headed_write_failed(
                    old(buffer)@,
                    seq![2u8],
                    inner.wire(old(buffer)@.native),
                    e,
                    final(buffer)@,
                ),
            },
    {
        write_bound(self, buffer, Endian::Native)
    }

    fn write_to_bytey_buffer_le(&self, buffer: &mut ByteBuffer) -> (r: Result<(), ByteBufferError>)
        ensures
            match self {
                Bound::Unbounded => slice_write_outcome(old(buffer)@, seq![0u8], r, final(buffer)@),
                Bound::Included(inner) => r matches Err(e) ==> headed_write_failed(
                    old(buffer)@,
                    seq![1u8],
                    inner.wire(ByteOrder::Little),
                    e,
                    final(buffer)@,
                ),
                Bound::Excluded(inner) => r matches Err(e) ==> headed_write_failed(
                    old(buffer)@,
                    seq![2u8],
                    inner.wire(ByteOrder::Little),
                    e,
                    final(buffer)@,
                ),
            },
    {
        write_bound(self, buffer, Endian::Little)
    }

    fn write_to_bytey_buffer_be(&self, buffer: &mut ByteBuffer) -> (r: Result<(), ByteBufferError>)
        ensures
            match self {
                Bound::Unbounded => slice_write_outcome(old(buffer)@, seq![0u8], r, final(buffer)@),
                Bound::Included(inner) => r matches Err(e) ==> headed_write_failed(
                    old(buffer)@,
                    seq![1u8],
                    inner.wire(ByteOrder::Big),
                    e,
                    final(buffer)@,
                ),
                Bound::Excluded(inner) => r matches Err(e) ==> headed_write_failed(
                    old(buffer)@,
                    seq![2u8],
                    inner.wire(ByteOrder::Big),
                    e,
                    final(buffer)@,
                ),
            },
    {
        write_bound(self, buffer, Endian::Big)
    }
}

} // verus!
