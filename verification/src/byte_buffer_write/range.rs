//! A range is written as its start, then its end.

use crate::byte_buffer::ByteBuffer;
use crate::byte_buffer_write::{
    lemma_write_first, lemma_write_step, write_outcome, write_with, ByteBufferWrite,
};
use crate::byte_order::{ByteOrder, Endian};
use crate::error::ByteBufferError;
use std::ops::{Range, RangeInclusive};
use vstd::prelude::*;

verus! {

/// Writes `first` and then `second`, in the byte order that `endian` names.
pub fn write_pair<A: ByteBufferWrite, B: ByteBufferWrite>(
    first: &A,
    second: &B,
    buffer: &mut ByteBuffer,
    endian: Endian,
) -> (r: Result<(), ByteBufferError>)
    requires
        old(buffer).wf(),
    ensures
        write_outcome(
            old(buffer)@,
            first.wire(endian.order_on(old(buffer)@.native)) + second.wire(
                endian.order_on(old(buffer)@.native),
            ),
            r is Ok,
            final(buffer)@,
        ),
{
    let ghost start = buffer@;
    let ghost order = endian.order_on(start.native);
    let ghost whole = first.wire(order) + second.wire(order);
    let head = write_with(first, buffer, endian);
    proof {
        lemma_write_first(start, first.wire(order), second.wire(order), whole, head is Ok, buffer@);
    }
    if head.is_err() {
        return head;
    }
    let ghost current = buffer@;
    let r = write_with(second, buffer, endian);
    proof {
        lemma_write_step(
            start,
            current,
            first.wire(order),
            second.wire(order),
            Seq::empty(),
            whole,
            r is Ok,
            buffer@,
        );
    }
    r
}

/// The start of an inclusive range: calls `RangeInclusive::start`, which hands out the lower
/// bound that the range was made with.
#[verifier::external_body]
fn inclusive_start<T>(range: &RangeInclusive<T>) -> (start: &T)
    ensures
        *start == range@.start,
{
    range.start()
}

/// The end of an inclusive range: calls `RangeInclusive::end`, which hands out the upper
/// bound that the range was made with.
#[verifier::external_body]
fn inclusive_end<T>(range: &RangeInclusive<T>) -> (end: &T)
    ensures
        *end == range@.end,
{
    range.end()
}

impl<T: ByteBufferWrite> ByteBufferWrite for Range<T> {
    open spec fn wire(&self, order: ByteOrder) -> Seq<u8> {
        self.start.wire(order) + self.end.wire(order)
    }

    fn write_to_bytey_buffer(&self, buffer: &mut ByteBuffer) -> (r: Result<(), ByteBufferError>) {
        write_pair(&self.start, &self.end, buffer, Endian::Native)
    }

    fn write_to_bytey_buffer_le(
        &self,
        buffer: &mut ByteBuffer,
    ) -> (r: Result<(), ByteBufferError>) {
        write_pair(&self.start, &self.end, buffer, Endian::Little)
    }

    fn write_to_bytey_buffer_be(
        &self,
        buffer: &mut ByteBuffer,
    ) -> (r: Result<(), ByteBufferError>) {
        write_pair(&self.start, &self.end, buffer, Endian::Big)
    }
}

impl<T: ByteBufferWrite> ByteBufferWrite for RangeInclusive<T> {
    open spec fn wire(&self, order: ByteOrder) -> Seq<u8> {
        self@.start.wire(order) + self@.end.wire(order)
    }

    fn write_to_bytey_buffer(&self, buffer: &mut ByteBuffer) -> (r: Result<(), ByteBufferError>) {
        write_pair(inclusive_start(self), inclusive_end(self), buffer, Endian::Native)
    }

    fn write_to_bytey_buffer_le(
        &self,
        buffer: &mut ByteBuffer,
    ) -> (r: Result<(), ByteBufferError>) {
        write_pair(inclusive_start(self), inclusive_end(self), buffer, Endian::Little)
    }

    fn write_to_bytey_buffer_be(
        &self,
        buffer: &mut ByteBuffer,
    ) -> (r: Result<(), ByteBufferError>) {
        write_pair(inclusive_start(self), inclusive_end(self), buffer, Endian::Big)
    }
}

} // verus!
