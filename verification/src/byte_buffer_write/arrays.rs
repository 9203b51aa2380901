//! Arrays, slices and vectors: the number of items, a `u64`, then the items in order.

use crate::byte_buffer::ByteBuffer;
use crate::byte_buffer::lemma_put_put;
use crate::byte_buffer_write::{
    count_wire, headed_write_failed, lemma_write_first, lemma_write_step, write_count,
    write_outcome, write_with, ByteBufferWrite,
};
use crate::byte_order::{ByteOrder, Endian};
use crate::error::ByteBufferError;
use vstd::prelude::*;

verus! {

/// The bytes of the items of a sequence, one item after the other.
pub open spec fn wire_all<T: ByteBufferWrite>(items: Seq<T>, order: ByteOrder) -> Seq<u8>
    decreases items.len(),
{
    if items.len() == 0 {
        Seq::empty()
    } else {
        wire_all(items.drop_last(), order) + items.last().wire(order)
    }
}

/// The bytes of a sequence: how many items it has, then the items.
pub open spec fn counted_wire<T: ByteBufferWrite>(items: Seq<T>, order: ByteOrder) -> Seq<u8> {
    count_wire(items.len(), order) + wire_all(items, order)
}

/// The bytes of two sequences in a row are the bytes of the first, then those of the second.
pub proof fn lemma_wire_all_concat<T: ByteBufferWrite>(
    first: Seq<T>,
    second: Seq<T>,
    order: ByteOrder,
)
    ensures
        wire_all(first + second, order) == wire_all(first, order) + wire_all(second, order),
    decreases second.len(),
{
    if second.len() == 0 {
        assert(first + second =~= first);
        assert(wire_all(first, order) + wire_all(second, order) =~= wire_all(first, order));
    } else {
        lemma_wire_all_concat(first, second.drop_last(), order);
        assert((first + second).drop_last() =~= first + second.drop_last());
        assert(wire_all(first + second, order) =~= wire_all(first, order) + wire_all(
            second,
            order,
        ));
    }
}

/// The bytes of a sequence are those of the items before `at`, of the item at `at`, and of the
/// items behind it.
pub proof fn lemma_wire_all_split<T: ByteBufferWrite>(items: Seq<T>, at: int, order: ByteOrder)
    requires
        0 <= at < items.len(),
    ensures
        wire_all(items, order) == wire_all(items.take(at), order) + items[at].wire(order)
            + wire_all(items.skip(at + 1), order),
        wire_all(items.take(at + 1), order) == wire_all(items.take(at), order) + items[at].wire(
            order,
        ),
{
    let head = items.take(at + 1);
    assert(head.drop_last() =~= items.take(at));
    assert(items =~= head + items.skip(at + 1));
    lemma_wire_all_concat(head, items.skip(at + 1), order);
}

/// Writes the number of `items` and then each of them, in the byte order that `endian` names.
///
/// A count that does not fit and cannot make the capacity grow leaves the arena as it was,
/// and the error says why the capacity could not grow. Behind a count that is written, the
/// write fails as the write of the first item that fails does.
pub fn write_items<T: ByteBufferWrite>(items: &[T], buffer: &mut ByteBuffer, endian: Endian) -> (r:
    Result<(), ByteBufferError>)
    requires
        old(buffer).wf(),
    ensures
        write_outcome(
            old(buffer)@,
            counted_wire(items@, endian.order_on(old(buffer)@.native)),
            r is Ok,
            final(buffer)@,
        ),
        r matches Err(e) ==> headed_write_failed(
            old(buffer)@,
            count_wire(items@.len(), endian.order_on(old(buffer)@.native)),
            wire_all(items@, endian.order_on(old(buffer)@.native)),
            e,
            final(buffer)@,
        ),
{
    let ghost start = buffer@;
    let ghost order = endian.order_on(start.native);
    let ghost count = count_wire(items@.len(), order);
    let ghost whole = counted_wire(items@, order);
    let counted = write_count(buffer, items.len(), endian);
    proof {
        lemma_write_first(start, count, wire_all(items@, order), whole, counted is Ok, buffer@);
    }
    if counted.is_err() {
        return counted;
    }
    let mut done: usize = 0;
    proof {
        assert(count + wire_all(items@.take(0), order) =~= count);
    }
    while done < items.len()
        invariant
            done <= items@.len(),
            start == old(buffer)@,
            start.inv(),
            order == endian.order_on(start.native),
            count == count_wire(items@.len(), order),
            whole == count + wire_all(items@, order),
            start.put(count).inv(),
            buffer.wf(),
            buffer@ == start.put(count + wire_all(items@.take(done as int), order)),
        decreases items@.len() - done,
    {
        let ghost current = buffer@;
        let ghost written = count + wire_all(items@.take(done as int), order);
        let ghost piece = items@[done as int].wire(order);
        let ghost rest = wire_all(items@.skip(done + 1), order);
        let r = write_with(&items[done], buffer, endian);
        proof {
            lemma_wire_all_split(items@, done as int, order);
            lemma_write_step(start, current, written, piece, rest, whole, r is Ok, buffer@);
            assert(written + piece =~= count + wire_all(items@.take(done + 1), order));
            if r is Err {
                let before = wire_all(items@.take(done as int), order);
                lemma_put_put(start, count, before);
                lemma_write_step(
                    start.put(count),
                    current,
                    before,
                    piece,
                    rest,
                    wire_all(items@, order),
                    false,
                    buffer@,
                );
            }
        }
        if r.is_err() {
            return r;
        }
        done = done + 1;
    }
    proof {
        assert(items@.take(done as int) =~= items@);
    }
    Ok(())
}

impl<T: ByteBufferWrite> ByteBufferWrite for [T] {
    open spec fn wire(&self, order: ByteOrder) -> Seq<u8> {
        counted_wire(self@, order)
    }

    fn write_to_bytey_buffer(&self, buffer: &mut ByteBuffer) -> (r: Result<(), ByteBufferError>)
        ensures
            r matches Err(e) ==> headed_write_failed(
                old(buffer)@,
                count_wire(self@.len(), old(buffer)@.native),
                wire_all(self@, old(buffer)@.native),
                e,
                final(buffer)@,
            ),
    {
        write_items(self, buffer, Endian::Native)
    }

    fn write_to_bytey_buffer_le(&self, buffer: &mut ByteBuffer) -> (r: Result<(), ByteBufferError>)
        ensures
            r matches Err(e) ==> headed_write_failed(
                old(buffer)@,
                count_wire(self@.len(), ByteOrder::Little),
                wire_all(self@, ByteOrder::Little),
                e,
                final(buffer)@,
            ),
    {
        write_items(self, buffer, Endian::Little)
    }

    fn write_to_bytey_buffer_be(&self, buffer: &mut ByteBuffer) -> (r: Result<(), ByteBufferError>)
        ensures
            r matches Err(e) ==> headed_write_failed(
                old(buffer)@,
                count_wire(self@.len(), ByteOrder::Big),
                wire_all(self@, ByteOrder::Big),
                e,
                final(buffer)@,
            ),
    {
        write_items(self, buffer, Endian::Big)
    }
}

impl<T: ByteBufferWrite> ByteBufferWrite for Vec<T> {
    open spec fn wire(&self, order: ByteOrder) -> Seq<u8> {
        counted_wire(self@, order)
    }

    fn write_to_bytey_buffer(&self, buffer: &mut ByteBuffer) -> (r: Result<(), ByteBufferError>)
        ensures
            r matches Err(e) ==> headed_write_failed(
                old(buffer)@,
                count_wire(self@.len(), old(buffer)@.native),
                wire_all(self@, old(buffer)@.native),
                e,
                final(buffer)@,
            ),
    {
        write_items(self.as_slice(), buffer, Endian::Native)
    }

    fn write_to_bytey_buffer_le(&self, buffer: &mut ByteBuffer) -> (r: Result<(), ByteBufferError>)
        ensures
            r matches Err(e) ==> headed_write_failed(
                old(buffer)@,
                count_wire(self@.len(), ByteOrder::Little),
                wire_all(self@, ByteOrder::Little),
                e,
                final(buffer)@,
            ),
    {
        write_items(self.as_slice(), buffer, Endian::Little)
    }

    fn write_to_bytey_buffer_be(&self, buffer: &mut ByteBuffer) -> (r: Result<(), ByteBufferError>)
        ensures
            r matches Err(e) ==> headed_write_failed(
                old(buffer)@,
                count_wire(self@.len(), ByteOrder::Big),
                wire_all(self@, ByteOrder::Big),
                e,
                final(buffer)@,
            ),
    {
        write_items(self.as_slice(), buffer, Endian::Big)
    }
}

impl<T: ByteBufferWrite, const N: usize> ByteBufferWrite for [T; N] {
    open spec fn wire(&self, order: ByteOrder) -> Seq<u8> {
        counted_wire(self@, order)
    }

    fn write_to_bytey_buffer(&self, buffer: &mut ByteBuffer) -> (r: Result<(), ByteBufferError>)
        ensures
            r matches Err(e) ==> headed_write_failed(
                old(buffer)@,
                count_wire(self@.len(), old(buffer)@.native),
                wire_all(self@, old(buffer)@.native),
                e,
                final(buffer)@,
            ),
    {
        write_items(self.as_slice(), buffer, Endian::Native)
    }

    fn write_to_bytey_buffer_le(&self, buffer: &mut ByteBuffer) -> (r: Result<(), ByteBufferError>)
        ensures
            r matches Err(e) ==> headed_write_failed(
                old(buffer)@,
                count_wire(self@.len(), ByteOrder::Little),
                wire_all(self@, ByteOrder::Little),
                e,
                final(buffer)@,
            ),
    {
        write_items(self.as_slice(), buffer, Endian::Little)
    }

    fn write_to_bytey_buffer_be(&self, buffer: &mut ByteBuffer) -> (r: Result<(), ByteBufferError>)
        ensures
            r matches Err(e) ==> headed_write_failed(
                old(buffer)@,
                count_wire(self@.len(), ByteOrder::Big),
                wire_all(self@, ByteOrder::Big),
                e,
                final(buffer)@,
            ),
    {
        write_items(self.as_slice(), buffer, Endian::Big)
    }
}

} // verus!
