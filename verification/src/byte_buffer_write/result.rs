//! A success or a failure: a tag byte, 1 for `Ok` and 2 for `Err`, then the value that the
//! variant holds.

use crate::byte_buffer::ByteBuffer;
use crate::byte_buffer_write::{
    headed_write_failed, lemma_write_first, lemma_write_step, write_outcome, write_tag,
    write_with, ByteBufferWrite,
};
use crate::byte_order::{ByteOrder, Endian};
use crate::error::ByteBufferError;
use vstd::prelude::*;

verus! {

/// Writes `payload` behind the tag byte `tag`.
///
/// A tag that does not fit and cannot make the capacity grow leaves the arena as it was, and
/// the error says why the capacity could not grow. Behind a tag that is written, the write
/// fails as the write of `payload` does.
pub fn write_tagged<T: ByteBufferWrite>(
    tag: u8,
    payload: &T,
    buffer: &mut ByteBuffer,
    endian: Endian,
) -> (r: Result<(), ByteBufferError>)
    requires
        old(buffer).wf(),
    ensures
        write_outcome(
            old(buffer)@,
            seq![tag] + payload.wire(endian.order_on(old(buffer)@.native)),
            r is Ok,
            final(buffer)@,
        ),
        r matches Err(e) ==> headed_write_failed(
            old(buffer)@,
            seq![tag],
            payload.wire(endian.order_on(old(buffer)@.native)),
            e,
            final(buffer)@,
        ),
{
    let ghost start = buffer@;
    let ghost order = endian.order_on(start.native);
    let ghost whole = seq![tag] + payload.wire(order);
    let tagged = write_tag(buffer, tag);
    proof {
        lemma_write_first(start, seq![tag], payload.wire(order), whole, tagged is Ok, buffer@);
    }
    if tagged.is_err() {
        return tagged;
    }
    let ghost middle = buffer@;
    let r = write_with(payload, buffer, endian);
    proof {
        lemma_write_step(
            start,
            middle,
            seq![tag],
            payload.wire(order),
            Seq::empty(),
            whole,
            r is Ok,
            buffer@,
        );
    }
    r
}

/// The tag byte of a success or a failure, as a wire of its own.
pub open spec fn result_tag<T, E>(value: &Result<T, E>) -> Seq<u8> {
    match value {
        Ok(_) => seq![1u8],
        Err(_) => seq![2u8],
    }
}

/// The bytes of the value that a success or a failure holds.
pub open spec fn result_payload<T: ByteBufferWrite, E: ByteBufferWrite>(
    value: &Result<T, E>,
    order: ByteOrder,
) -> Seq<u8> {
    match value {
        Ok(inner) => inner.wire(order),
        Err(inner) => inner.wire(order),
    }
}

/// Writes `value` in the byte order that `endian` names. Fails as
/// [`write_tagged`] does on the tag and the value of the variant.
pub fn write_result<T: ByteBufferWrite, E: ByteBufferWrite>(
    value: &Result<T, E>,
    buffer: &mut ByteBuffer,
    endian: Endian,
) -> (r: Result<(), ByteBufferError>)
    requires
        old(buffer).wf(),
    ensures
        write_outcome(
            old(buffer)@,
            value.wire(endian.order_on(old(buffer)@.native)),
            r is Ok,
            final(buffer)@,
        ),
        r matches Err(e) ==> headed_write_failed(
            old(buffer)@,
            result_tag(value),
            result_payload(value, endian.order_on(old(buffer)@.native)),
            e,
            final(buffer)@,
        ),
{
    match value {
        Ok(inner) => write_tagged(1, inner, buffer, endian),
        Err(inner) => write_tagged(2, inner, buffer, endian),
    }
}

impl<T: ByteBufferWrite, E: ByteBufferWrite> ByteBufferWrite for Result<T, E> {
    open spec fn wire(&self, order: ByteOrder) -> Seq<u8> {
        match self {
            Ok(inner) => seq![1u8] + inner.wire(order),
            Err(inner) => seq![2u8] + inner.wire(order),
        }
    }

    fn write_to_bytey_buffer(&self, buffer: &mut ByteBuffer) -> (r: Result<(), ByteBufferError>)
        ensures
            r matches Err(e) ==> headed_write_failed(
                old(buffer)@,
                result_tag(self),
                result_payload(self, old(buffer)@.native),
                e,
                final(buffer)@,
            ),
    {
        write_result(self, buffer, Endian::Native)
    }

    fn write_to_bytey_buffer_le(&self, buffer: &mut ByteBuffer) -> (r: Result<(), ByteBufferError>)
        ensures
            r matches Err(e) ==> headed_write_failed(
                old(buffer)@,
                result_tag(self),
                result_payload(self, ByteOrder::Little),
                e,
                final(buffer)@,
            ),
    {
        write_result(self, buffer, Endian::Little)
    }

    fn write_to_bytey_buffer_be(&self, buffer: &mut ByteBuffer) -> (r: Result<(), ByteBufferError>)
        ensures
            r matches Err(e) ==> headed_write_failed(
                old(buffer)@,
                result_tag(self),
                result_payload(self, ByteOrder::Big),
                e,
                final(buffer)@,
            ),
    {
        write_result(self, buffer, Endian::Big)
    }
}

} // verus!
