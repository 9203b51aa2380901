//! Writing values to the arena.
//!
//! A type that implements [`ByteBufferWrite`] says which bytes stand for each of its values
//! ([`wire`](ByteBufferWrite::wire)) and writes them at the cursor, in the machine's byte
//! order, in little-endian or in big-endian order.

use crate::byte_buffer::{lemma_put_put, BufferView, ByteBuffer};
use crate::byte_order::{encode_unsigned, unsigned_to_bytes, ByteOrder, Endian};
use crate::error::ByteBufferError;
use vstd::prelude::*;

pub mod arrays;
pub mod bound;
pub mod boxed;
pub mod byte;
pub mod character;
pub mod cow;
pub mod integers;
pub mod num;
pub mod option;
pub mod phantom;
pub mod range;
pub mod result;
pub mod string;
pub mod time;
pub mod tuple;

verus! {

/// Whether `after` is `before` with some of `wire`, but not all of it, written at the cursor.
pub open spec fn partly_written(before: BufferView, wire: Seq<u8>, after: BufferView) -> bool {
    exists|k: nat| k < wire.len() && after == #[trigger] before.put(wire.take(k as int))
}

/// What every write of `wire` to an arena promises.
///
/// A write that succeeded has put all of `wire` at the cursor. A write fails only where
/// `wire` does not fit in the capacity, and then leaves the part of `wire` behind that was
/// written before the failure.
pub open spec fn write_outcome(
    before: BufferView,
    wire: Seq<u8>,
    ok: bool,
    after: BufferView,
) -> bool {
    &&& after.inv()
    &&& if ok {
        after == before.put(wire)
    } else {
        &&& !before.fits(wire.len())
        &&& partly_written(before, wire, after)
    }
}

/// What a write of `wire` that has to grow the capacity fails with: `MaxCapacity` where the
/// grown capacity would be beyond the largest, and else `AllocationFailure` with the capacity
/// that the allocator refused.
pub open spec fn growth_failure(before: BufferView, wire: Seq<u8>) -> ByteBufferError {
    if before.put(wire).capacity > crate::byte_buffer::max_size() {
        ByteBufferError::MaxCapacity
    } else {
        ByteBufferError::AllocationFailure { size: before.put(wire).capacity as usize }
    }
}

/// Whether a write of `wire` in one piece failed with `e` and left `after`: the bytes did not
/// fit, the capacity could not grow, `e` says why, and the arena is as it was.
pub open spec fn slice_write_failed(
    before: BufferView,
    wire: Seq<u8>,
    e: ByteBufferError,
    after: BufferView,
) -> bool {
    &&& after == before
    &&& !before.fits(wire.len())
    &&& e == growth_failure(before, wire)
}

/// What a write of `wire` in one piece promises: it succeeds, or it leaves the arena as it
/// was and says why the capacity could not grow.
pub open spec fn slice_write_outcome(
    before: BufferView,
    wire: Seq<u8>,
    r: Result<(), ByteBufferError>,
    after: BufferView,
) -> bool {
    &&& after.inv()
    &&& match r {
        Ok(_) => after == before.put(wire),
        Err(e) => slice_write_failed(before, wire, e, after),
    }
}

/// Whether the write of a tag or a count, `head`, and then of a value with the bytes `rest`
/// failed with `e` and left `after`. Either `head` could not be written, which is the
/// failure of a write in one piece, or `head` is written and the write of the value
/// stopped half-way.
pub open spec fn headed_write_failed(
    before: BufferView,
    head: Seq<u8>,
    rest: Seq<u8>,
    e: ByteBufferError,
    after: BufferView,
) -> bool {
    ||| slice_write_failed(before, head, e, after)
    ||| partly_written(before.put(head), rest, after)
}

/// Whether the write of a count, `head`, and then of the bytes `rest` failed with `e` and
/// left `after`. Either `head` could not be written, or `head` is written and `rest` could
/// not be; each is the failure of a write in one piece.
pub open spec fn framed_write_failed(
    before: BufferView,
    head: Seq<u8>,
    rest: Seq<u8>,
    e: ByteBufferError,
    after: BufferView,
) -> bool {
    ||| slice_write_failed(before, head, e, after)
    ||| slice_write_failed(before.put(head), rest, e, after)
}

/// A value that can be written to a [`ByteBuffer`].
pub trait ByteBufferWrite {
    /// The bytes that stand for `self` where numbers are written in the given order. An
    /// implementation that verified code is to rely on says which they are.
    open spec fn wire(&self, order: ByteOrder) -> Seq<u8> {
        vstd::pervasive::arbitrary()
    }

    /// Writes `self` at the cursor, numbers in the byte order of the machine.
    fn write_to_bytey_buffer(&self, buffer: &mut ByteBuffer) -> (r: Result<(), ByteBufferError>)
        requires
            old(buffer).wf(),
        ensures
            write_outcome(
                old(buffer)@,
                self.wire(old(buffer)@.native),
                r is Ok,
                final(buffer)@,
            ),
    ;

    /// Writes `self` at the cursor, numbers in little-endian order.
    fn write_to_bytey_buffer_le(&self, buffer: &mut ByteBuffer) -> (r: Result<(), ByteBufferError>)
        requires
            old(buffer).wf(),
        ensures
            write_outcome(old(buffer)@, self.wire(ByteOrder::Little), r is Ok, final(buffer)@),
    ;

    /// Writes `self` at the cursor, numbers in big-endian order.
    fn write_to_bytey_buffer_be(&self, buffer: &mut ByteBuffer) -> (r: Result<(), ByteBufferError>)
        requires
            old(buffer).wf(),
        ensures
            write_outcome(old(buffer)@, self.wire(ByteOrder::Big), r is Ok, final(buffer)@),
    ;
}

/// Writing nothing changes nothing.
pub proof fn lemma_put_nothing(state: BufferView)
    requires
        state.inv(),
    ensures
        state.put(Seq::empty()) == state,
{
    assert(state.put(Seq::empty()).bytes =~= state.bytes);
}

/// A write that was stopped before its first byte has left a part of any longer wire.
pub proof fn lemma_partly_nothing(before: BufferView, wire: Seq<u8>)
    requires
        before.inv(),
        wire.len() > 0,
    ensures
        partly_written(before, wire, before),
{
    lemma_put_nothing(before);
    assert(wire.take(0) =~= Seq::<u8>::empty());
    assert(before == before.put(wire.take(0int)));
}

/// Where `head` was written and the write of `tail` then stopped half-way, the write of
/// `head + tail` stopped half-way.
pub proof fn lemma_partly_after(before: BufferView, head: Seq<u8>, tail: Seq<u8>, after: BufferView)
    requires
        before.inv(),
        partly_written(before.put(head), tail, after),
    ensures
        partly_written(before, head + tail, after),
{
    let k = choose|k: nat|
        k < tail.len() && after == #[trigger] before.put(head).put(tail.take(k as int));
    lemma_put_put(before, head, tail.take(k as int));
    let whole = head + tail;
    let j = head.len() + k;
    assert(whole.take(j as int) =~= head + tail.take(k as int));
    assert(after == before.put(whole.take(j as int)));
}

/// A write that stopped half-way in `head` stopped half-way in `head + tail`.
pub proof fn lemma_partly_before(
    before: BufferView,
    head: Seq<u8>,
    tail: Seq<u8>,
    after: BufferView,
)
    requires
        partly_written(before, head, after),
    ensures
        partly_written(before, head + tail, after),
{
    let k = choose|k: nat| k < head.len() && after == #[trigger] before.put(head.take(k as int));
    let whole = head + tail;
    assert(whole.take(k as int) =~= head.take(k as int));
    assert(after == before.put(whole.take(k as int)));
}

/// One step of a write in pieces. The arena `start` has `written` behind it and is now
/// `current`; the write of `piece` left `after`, and `rest` was still to come. Where the step
/// succeeded, `written + piece` is behind; where it failed, the write of the whole failed.
pub proof fn lemma_write_step(
    start: BufferView,
    current: BufferView,
    written: Seq<u8>,
    piece: Seq<u8>,
    rest: Seq<u8>,
    whole: Seq<u8>,
    ok: bool,
    after: BufferView,
)
    requires
        start.inv(),
        current == start.put(written),
        whole =~= written + piece + rest,
        write_outcome(current, piece, ok, after),
    ensures
        ok ==> after == start.put(written + piece),
        ok && rest.len() == 0 ==> write_outcome(start, whole, true, after),
        !ok ==> write_outcome(start, whole, false, after),
{
    crate::growth::lemma_next_power_of_two(start.cursor + written.len());
    if ok {
        lemma_put_put(start, written, piece);
        if rest.len() == 0 {
            assert(whole =~= written + piece);
        }
    } else {
        lemma_partly_after(start, written, piece, after);
        lemma_partly_before(start, written + piece, rest, after);
    }
}

/// The first step of a write in pieces: `lemma_write_step` where nothing is behind yet.
pub proof fn lemma_write_first(
    start: BufferView,
    piece: Seq<u8>,
    rest: Seq<u8>,
    whole: Seq<u8>,
    ok: bool,
    after: BufferView,
)
    requires
        start.inv(),
        whole =~= piece + rest,
        write_outcome(start, piece, ok, after),
    ensures
        ok ==> after == start.put(piece),
        ok && rest.len() == 0 ==> write_outcome(start, whole, true, after),
        !ok ==> write_outcome(start, whole, false, after),
{
    lemma_put_nothing(start);
    assert(Seq::<u8>::empty() + piece =~= piece);
    lemma_write_step(start, start, Seq::empty(), piece, rest, whole, ok, after);
}

/// Writes `source` in one piece.
pub fn write_bytes(buffer: &mut ByteBuffer, source: &[u8]) -> (r: Result<(), ByteBufferError>)
    requires
        old(buffer).wf(),
    ensures
        slice_write_outcome(old(buffer)@, source@, r, final(buffer)@),
        write_outcome(old(buffer)@, source@, r is Ok, final(buffer)@),
{
    match buffer.write_slice(source) {
        Ok(_) => Ok(()),
        Err(e) => {
            proof {
                if source@.len() > 0 {
                    lemma_partly_nothing(old(buffer)@, source@);
                }
            }
            Err(e)
        },
    }
}

/// Writes the one byte that tells the variants of a sum type apart.
pub fn write_tag(buffer: &mut ByteBuffer, tag: u8) -> (r: Result<(), ByteBufferError>)
    requires
        old(buffer).wf(),
    ensures
        slice_write_outcome(old(buffer)@, seq![tag], r, final(buffer)@),
        write_outcome(old(buffer)@, seq![tag], r is Ok, final(buffer)@),
{
    proof {
        crate::byte_buffer_write::byte::lemma_byte_wire(tag, ByteOrder::Little);
    }
    let bytes = unsigned_to_bytes(tag as u128, 1, ByteOrder::Little);
    write_bytes(buffer, bytes.as_slice())
}

/// The eight bytes that say how many items or bytes follow.
pub open spec fn count_wire(count: nat, order: ByteOrder) -> Seq<u8> {
    encode_unsigned(count, 8, order)
}

/// Writes the number of items or bytes that follow, as a `u64` in the given order.
pub fn write_count(buffer: &mut ByteBuffer, count: usize, endian: Endian) -> (r: Result<
    (),
    ByteBufferError,
>)
    requires
        old(buffer).wf(),
    ensures
        slice_write_outcome(
            old(buffer)@,
            count_wire(count as nat, endian.order_on(old(buffer)@.native)),
            r,
            final(buffer)@,
        ),
        write_outcome(
            old(buffer)@,
            count_wire(count as nat, endian.order_on(old(buffer)@.native)),
            r is Ok,
            final(buffer)@,
        ),
{
    let order = endian.resolve(buffer.native_order());
    let bytes = unsigned_to_bytes(count as u128, 8, order);
    write_bytes(buffer, bytes.as_slice())
}

/// Writes `value` in the byte order that `endian` names.
pub fn write_with<T: ByteBufferWrite + ?Sized>(
    value: &T,
    buffer: &mut ByteBuffer,
    endian: Endian,
) -> (r: Result<(), ByteBufferError>)
    requires
        old(buffer).wf(),
    ensures
        write_outcome(
            old(buffer)@,
            value.wire(endian.order_on(old(buffer)@.native)),
            r is Ok,
            final(buffer)@,
        ),
{
    match endian {
        Endian::Native => value.write_to_bytey_buffer(buffer),
        Endian::Little => value.write_to_bytey_buffer_le(buffer),
        Endian::Big => value.write_to_bytey_buffer_be(buffer),
    }
}

impl<T: ByteBufferWrite + ?Sized> ByteBufferWrite for &T {
    open spec fn wire(&self, order: ByteOrder) -> Seq<u8> {
        (**self).wire(order)
    }

    fn write_to_bytey_buffer(&self, buffer: &mut ByteBuffer) -> (r: Result<(), ByteBufferError>) {
        (**self).write_to_bytey_buffer(buffer)
    }

    fn write_to_bytey_buffer_le(
        &self,
        buffer: &mut ByteBuffer,
    ) -> (r: Result<(), ByteBufferError>) {
        (**self).write_to_bytey_buffer_le(buffer)
    }

    fn write_to_bytey_buffer_be(
        &self,
        buffer: &mut ByteBuffer,
    ) -> (r: Result<(), ByteBufferError>) {
        (**self).write_to_bytey_buffer_be(buffer)
    }
}

/// The unit value is written as no bytes at all.
impl ByteBufferWrite for () {
    open spec fn wire(&self, order: ByteOrder) -> Seq<u8> {
        Seq::empty()
    }

    fn write_to_bytey_buffer(&self, buffer: &mut ByteBuffer) -> (r: Result<(), ByteBufferError>)
        ensures
            r is Ok,
    {
        proof {
            lemma_put_nothing(buffer@);
        }
        Ok(())
    }

    fn write_to_bytey_buffer_le(&self, buffer: &mut ByteBuffer) -> (r: Result<(), ByteBufferError>)
        ensures
            r is Ok,
    {
        proof {
            lemma_put_nothing(buffer@);
        }
        Ok(())
    }

    fn write_to_bytey_buffer_be(&self, buffer: &mut ByteBuffer) -> (r: Result<(), ByteBufferError>)
        ensures
            r is Ok,
    {
        proof {
            lemma_put_nothing(buffer@);
        }
        Ok(())
    }
}

} // verus!
