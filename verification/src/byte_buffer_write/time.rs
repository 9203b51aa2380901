//! A duration is written as its whole seconds, a `u64`, then the nanoseconds of its last,
//! unfinished second, a `u32`.

use crate::byte_buffer::ByteBuffer;
use crate::byte_buffer_write::integers::write_unsigned;
use crate::byte_buffer_write::{
    framed_write_failed, lemma_write_first, lemma_write_step, write_outcome, ByteBufferWrite,
};
use crate::byte_order::{ByteOrder, Endian};
use crate::error::ByteBufferError;
use std::time::Duration;
use vstd::prelude::*;

verus! {

/// The whole seconds of a duration: what `Duration::as_secs` returns.
pub uninterp spec fn duration_secs(duration: Duration) -> u64;

/// The nanoseconds of a duration beyond its whole seconds: what `Duration::subsec_nanos`
/// returns.
pub uninterp spec fn duration_subsec_nanos(duration: Duration) -> u32;

/// Calls `Duration::as_secs`.
#[verifier::external_body]
pub(crate) fn as_secs(duration: &Duration) -> (secs: u64)
    ensures
        secs == duration_secs(*duration),
{
    duration.as_secs()
}

/// Calls `Duration::subsec_nanos`, whose result is always less than a second.
#[verifier::external_body]
pub(crate) fn subsec_nanos(duration: &Duration) -> (nanos: u32)
    ensures
        nanos == duration_subsec_nanos(*duration),
        nanos < 1_000_000_000,
{
    duration.subsec_nanos()
}

/// Writes `value` in the byte order that `endian` names.
///
/// A failure to grow for the seconds leaves the arena as it was; one for the nanoseconds
/// leaves the seconds written. The error says why the capacity could not grow for the piece
/// that did not fit.
pub fn write_duration(value: &Duration, buffer: &mut ByteBuffer, endian: Endian) -> (r: Result<
    (),
    ByteBufferError,
>)
    requires
        old(buffer).wf(),
    ensures
        write_outcome(
            old(buffer)@,
            value.wire(endian.order_on(old(buffer)@.native)),
            r is Ok,
            final(buffer)@,
        ),
        r matches Err(e) ==> framed_write_failed(
            old(buffer)@,
            duration_secs(*value).wire(endian.order_on(old(buffer)@.native)),
            duration_subsec_nanos(*value).wire(endian.order_on(old(buffer)@.native)),
            e,
            final(buffer)@,
        ),
{
    let ghost start = buffer@;
    let ghost order = endian.order_on(start.native);
    let ghost head = duration_secs(*value).wire(order);
    let ghost tail = duration_subsec_nanos(*value).wire(order);
    let chosen = endian.resolve(buffer.native_order());
    let first = write_unsigned(buffer, as_secs(value) as u128, 8, chosen);
    proof {
        lemma_write_first(start, head, tail, value.wire(order), first is Ok, buffer@);
    }
    if first.is_err() {
        return first;
    }
    let ghost current = buffer@;
    let r = write_unsigned(buffer, subsec_nanos(value) as u128, 4, chosen);
    proof {
        lemma_write_step(
            start,
            current,
            head,
            tail,
            Seq::empty(),
            value.wire(order),
            r is Ok,
            buffer@,
        );
    }
    r
}

impl ByteBufferWrite for Duration {
    open spec fn wire(&self, order: ByteOrder) -> Seq<u8> {
        duration_secs(*self).wire(order) + duration_subsec_nanos(*self).wire(order)
    }

    fn write_to_bytey_buffer(&self, buffer: &mut ByteBuffer) -> (r: Result<(), ByteBufferError>)
        ensures
            r matches Err(e) ==> framed_write_failed(
                old(buffer)@,
                duration_secs(*self).wire(old(buffer)@.native),
                duration_subsec_nanos(*self).wire(old(buffer)@.native),
                e,
                final(buffer)@,
            ),
    {
        write_duration(self, buffer, Endian::Native)
    }

    fn write_to_bytey_buffer_le(&self, buffer: &mut ByteBuffer) -> (r: Result<(), ByteBufferError>)
        ensures
            r matches Err(e) ==> framed_write_failed(
                old(buffer)@,
                duration_secs(*self).wire(ByteOrder::Little),
                duration_subsec_nanos(*self).wire(ByteOrder::Little),
                e,
                final(buffer)@,
            ),
    {
        write_duration(self, buffer, Endian::Little)
    }

    fn write_to_bytey_buffer_be(&self, buffer: &mut ByteBuffer) -> (r: Result<(), ByteBufferError>)
        ensures
            r matches Err(e) ==> framed_write_failed(
                old(buffer)@,
                duration_secs(*self).wire(ByteOrder::Big),
                duration_subsec_nanos(*self).wire(ByteOrder::Big),
                e,
                final(buffer)@,
            ),
    {
        write_duration(self, buffer, Endian::Big)
    }
}

} // verus!
