//! Tuples of one to twelve members: the members in order, with nothing between them. The
//! failure of a member is reported with its position in the tuple.
//!
//! A tuple is written as the tuple of its members but the last, then its last member. Where
//! the write fails, the position in the failure is that of the member at which the arena
//! shows the write to have stopped.

use crate::byte_buffer::{BufferView, ByteBuffer};
use crate::byte_buffer_write::{
    lemma_write_first, lemma_write_step, partly_written, write_outcome, write_with,
    ByteBufferWrite,
};
use crate::byte_order::{ByteOrder, Endian};
use crate::error::{ByteBufferError, ErrorView};
use vstd::prelude::*;

verus! {

/// Whether `e` is the failure of the member at `index` of a tuple that was being written:
/// some failure with the member's position added to its text.
pub open spec fn member_failed(e: ErrorView, index: nat) -> bool {
    exists|inner: ErrorView| e == #[trigger] inner.at_tuple_write(index)
}

/// Whether the write of the member at `index` of a tuple stopped half-way and failed with
/// `failure`: `behind`, the bytes of the members before it, are written, the member's own
/// bytes `piece` are written in part, and `failure` is a failure with the member's position
/// added.
pub open spec fn member_stopped(
    failure: ErrorView,
    before: BufferView,
    behind: Seq<u8>,
    piece: Seq<u8>,
    index: nat,
    after: BufferView,
) -> bool {
    &&& partly_written(before.put(behind), piece, after)
    &&& member_failed(failure, index)
}

/// Whether the write of a tuple of one member with the bytes `a` stopped half-way and
/// failed with `failure`.
pub open spec fn tuple1_stopped(
    failure: ErrorView,
    before: BufferView,
    a: Seq<u8>,
    after: BufferView,
) -> bool {
    &&& partly_written(before, a, after)
    &&& member_failed(failure, 0)
}

/// Whether the write of a tuple of two members with the bytes `a` and `b` failed with
/// `failure`: it stopped in the first, or behind it in the last.
pub open spec fn tuple2_stopped(
    failure: ErrorView,
    before: BufferView,
    a: Seq<u8>,
    b: Seq<u8>,
    after: BufferView,
) -> bool {
    ||| tuple1_stopped(failure, before, a, after)
    ||| member_stopped(failure, before, a, b, 1, after)
}

/// Whether the write of a tuple of three members with the bytes `a` to `c` failed with
/// `failure`: it stopped in one of the first two, or behind them in the last.
pub open spec fn tuple3_stopped(
    failure: ErrorView,
    before: BufferView,
    a: Seq<u8>,
    b: Seq<u8>,
    c: Seq<u8>,
    after: BufferView,
) -> bool {
    ||| tuple2_stopped(failure, before, a, b, after)
    ||| member_stopped(failure, before, a + b, c, 2, after)
}

/// Whether the write of a tuple of four members with the bytes `a` to `d` failed with
/// `failure`: it stopped in one of the first three, or behind them in the last.
pub open spec fn tuple4_stopped(
    failure: ErrorView,
    before: BufferView,
    a: Seq<u8>,
    b: Seq<u8>,
    c: Seq<u8>,
    d: Seq<u8>,
    after: BufferView,
) -> bool {
    ||| tuple3_stopped(failure, before, a, b, c, after)
    ||| member_stopped(failure, before, a + b + c, d, 3, after)
}

/// Whether the write of a tuple of five members with the bytes `a` to `e` failed with
/// `failure`: it stopped in one of the first four, or behind them in the last.
pub open spec fn tuple5_stopped(
    failure: ErrorView,
    before: BufferView,
    a: Seq<u8>,
    b: Seq<u8>,
    c: Seq<u8>,
    d: Seq<u8>,
    e: Seq<u8>,
    after: BufferView,
) -> bool {
    ||| tuple4_stopped(failure, before, a, b, c, d, after)
    ||| member_stopped(failure, before, a + b + c + d, e, 4, after)
}

/// Whether the write of a tuple of six members with the bytes `a` to `f` failed with
/// `failure`: it stopped in one of the first five, or behind them in the last.
pub open spec fn tuple6_stopped(
    failure: ErrorView,
    before: BufferView,
    a: Seq<u8>,
    b: Seq<u8>,
    c: Seq<u8>,
    d: Seq<u8>,
    e: Seq<u8>,
    f: Seq<u8>,
    after: BufferView,
) -> bool {
    ||| tuple5_stopped(failure, before, a, b, c, d, e, after)
    ||| member_stopped(failure, before, a + b + c + d + e, f, 5, after)
}

/// Whether the write of a tuple of seven members with the bytes `a` to `g` failed with
/// `failure`: it stopped in one of the first six, or behind them in the last.
pub open spec fn tuple7_stopped(
    failure: ErrorView,
    before: BufferView,
    a: Seq<u8>,
    b: Seq<u8>,
    c: Seq<u8>,
    d: Seq<u8>,
    e: Seq<u8>,
    f: Seq<u8>,
    g: Seq<u8>,
    after: BufferView,
) -> bool {
    ||| tuple6_stopped(failure, before, a, b, c, d, e, f, after)
    ||| member_stopped(failure, before, a + b + c + d + e + f, g, 6, after)
}

/// Whether the write of a tuple of eight members with the bytes `a` to `h` failed with
/// `failure`: it stopped in one of the first seven, or behind them in the last.
pub open spec fn tuple8_stopped(
    failure: ErrorView,
    before: BufferView,
    a: Seq<u8>,
    b: Seq<u8>,
    c: Seq<u8>,
    d: Seq<u8>,
    e: Seq<u8>,
    f: Seq<u8>,
    g: Seq<u8>,
    h: Seq<u8>,
    after: BufferView,
) -> bool {
    ||| tuple7_stopped(failure, before, a, b, c, d, e, f, g, after)
    ||| member_stopped(failure, before, a + b + c + d + e + f + g, h, 7, after)
}

/// Whether the write of a tuple of nine members with the bytes `a` to `i` failed with
/// `failure`: it stopped in one of the first eight, or behind them in the last.
pub open spec fn tuple9_stopped(
    failure: ErrorView,
    before: BufferView,
    a: Seq<u8>,
    b: Seq<u8>,
    c: Seq<u8>,
    d: Seq<u8>,
    e: Seq<u8>,
    f: Seq<u8>,
    g: Seq<u8>,
    h: Seq<u8>,
    i: Seq<u8>,
    after: BufferView,
) -> bool {
    ||| tuple8_stopped(failure, before, a, b, c, d, e, f, g, h, after)
    ||| member_stopped(failure, before, a + b + c + d + e + f + g + h, i, 8, after)
}

/// Whether the write of a tuple of ten members with the bytes `a` to `j` failed with
/// `failure`: it stopped in one of the first nine, or behind them in the last.
pub open spec fn tuple10_stopped(
    failure: ErrorView,
    before: BufferView,
    a: Seq<u8>,
    b: Seq<u8>,
    c: Seq<u8>,
    d: Seq<u8>,
    e: Seq<u8>,
    f: Seq<u8>,
    g: Seq<u8>,
    h: Seq<u8>,
    i: Seq<u8>,
    j: Seq<u8>,
    after: BufferView,
) -> bool {
    ||| tuple9_stopped(failure, before, a, b, c, d, e, f, g, h, i, after)
    ||| member_stopped(failure, before, a + b + c + d + e + f + g + h + i, j, 9, after)
}

/// Whether the write of a tuple of eleven members with the bytes `a` to `k` failed with
/// `failure`: it stopped in one of the first ten, or behind them in the last.
pub open spec fn tuple11_stopped(
    failure: ErrorView,
    before: BufferView,
    a: Seq<u8>,
    b: Seq<u8>,
    c: Seq<u8>,
    d: Seq<u8>,
    e: Seq<u8>,
    f: Seq<u8>,
    g: Seq<u8>,
    h: Seq<u8>,
    i: Seq<u8>,
    j: Seq<u8>,
    k: Seq<u8>,
    after: BufferView,
) -> bool {
    ||| tuple10_stopped(failure, before, a, b, c, d, e, f, g, h, i, j, after)
    ||| member_stopped(failure, before, a + b + c + d + e + f + g + h + i + j, k, 10, after)
}

/// Whether the write of a tuple of twelve members with the bytes `a` to `l` failed with
/// `failure`: it stopped in one of the first eleven, or behind them in the last.
pub open spec fn tuple12_stopped(
    failure: ErrorView,
    before: BufferView,
    a: Seq<u8>,
    b: Seq<u8>,
    c: Seq<u8>,
    d: Seq<u8>,
    e: Seq<u8>,
    f: Seq<u8>,
    g: Seq<u8>,
    h: Seq<u8>,
    i: Seq<u8>,
    j: Seq<u8>,
    k: Seq<u8>,
    l: Seq<u8>,
    after: BufferView,
) -> bool {
    ||| tuple11_stopped(failure, before, a, b, c, d, e, f, g, h, i, j, k, after)
    ||| member_stopped(failure, before, a + b + c + d + e + f + g + h + i + j + k, l, 11, after)
}
/// Writes the member at `index` of a tuple, the last one that `index + 1` members have, in
/// the byte order that `endian` names.
pub fn write_member<T: ByteBufferWrite>(
    member: &T,
    index: usize,
    buffer: &mut ByteBuffer,
    endian: Endian,
) -> (r: Result<(), ByteBufferError>)
    requires
        old(buffer).wf(),
    ensures
        write_outcome(
            old(buffer)@,
            member.wire(endian.order_on(old(buffer)@.native)),
            r is Ok,
            final(buffer)@,
        ),
        r matches Err(e) ==> member_failed(e@, index as nat),
{
    match write_with(member, buffer, endian) {
        Ok(_) => Ok(()),
        Err(e) => {
            let wrapped = e.at_tuple_write(index);
            assert(member_failed(wrapped@, index as nat));
            Err(wrapped)
        },
    }
}

/// Writes the one member of `value` in the byte order that `endian` names.
pub fn write_tuple1<A: ByteBufferWrite>(
    value: &(A,),
    buffer: &mut ByteBuffer,
    endian: Endian,
) -> (r: Result<(), ByteBufferError>)
    requires
        old(buffer).wf(),
    ensures
        write_outcome(
            old(buffer)@,
            value.wire(endian.order_on(old(buffer)@.native)),
            r is Ok,
            final(buffer)@,
        ),
        r matches Err(e) ==> tuple1_stopped(
            e@,
            old(buffer)@,
            value.0.wire(endian.order_on(old(buffer)@.native)),
            final(buffer)@,
        ),
{
    write_member(&value.0, 0, buffer, endian)
}

impl<A: ByteBufferWrite> ByteBufferWrite for (A,) {
    open spec fn wire(&self, order: ByteOrder) -> Seq<u8> {
        self.0.wire(order)
    }

    fn write_to_bytey_buffer(&self, buffer: &mut ByteBuffer) -> (r: Result<(), ByteBufferError>)
        ensures
            r matches Err(e) ==> tuple1_stopped(
                e@,
                old(buffer)@,
                self.0.wire(old(buffer)@.native),
                final(buffer)@,
            ),
    {
        write_tuple1(self, buffer, Endian::Native)
    }

    fn write_to_bytey_buffer_le(&self, buffer: &mut ByteBuffer) -> (r: Result<(), ByteBufferError>)
        ensures
            r matches Err(e) ==> tuple1_stopped(
                e@,
                old(buffer)@,
                self.0.wire(ByteOrder::Little),
                final(buffer)@,
            ),
    {
        write_tuple1(self, buffer, Endian::Little)
    }

    fn write_to_bytey_buffer_be(&self, buffer: &mut ByteBuffer) -> (r: Result<(), ByteBufferError>)
        ensures
            r matches Err(e) ==> tuple1_stopped(
                e@,
                old(buffer)@,
                self.0.wire(ByteOrder::Big),
                final(buffer)@,
            ),
    {
        write_tuple1(self, buffer, Endian::Big)
    }
}

/// Writes the two members of `value` in the byte order that `endian` names.
pub fn write_tuple2<A: ByteBufferWrite, B: ByteBufferWrite>(
    value: &(A, B),
    buffer: &mut ByteBuffer,
    endian: Endian,
) -> (r: Result<(), ByteBufferError>)
    requires
        old(buffer).wf(),
    ensures
        write_outcome(
            old(buffer)@,
            value.wire(endian.order_on(old(buffer)@.native)),
            r is Ok,
            final(buffer)@,
        ),
        r matches Err(e) ==> tuple2_stopped(
            e@,
            old(buffer)@,
            value.0.wire(endian.order_on(old(buffer)@.native)),
            value.1.wire(endian.order_on(old(buffer)@.native)),
            final(buffer)@,
        ),
{
    let ghost start = buffer@;
    let ghost order = endian.order_on(start.native);
    let head = (&value.0,);
    let first = write_tuple1(&head, buffer, endian);
    proof {
        lemma_write_first(
            start,
            head.wire(order),
            value.1.wire(order),
            value.wire(order),
            first is Ok,
            buffer@,
        );
    }
    if first.is_err() {
        return first;
    }
    let ghost current = buffer@;
    let last = write_member(&value.1, 1, buffer, endian);
    proof {
        lemma_write_step(
            start,
            current,
            head.wire(order),
            value.1.wire(order),
            Seq::empty(),
            value.wire(order),
            last is Ok,
            buffer@,
        );
    }
    last
}

impl<A: ByteBufferWrite, B: ByteBufferWrite> ByteBufferWrite for (A, B) {
    open spec fn wire(&self, order: ByteOrder) -> Seq<u8> {
        self.0.wire(order) + self.1.wire(order)
    }

    fn write_to_bytey_buffer(&self, buffer: &mut ByteBuffer) -> (r: Result<(), ByteBufferError>)
        ensures
            r matches Err(e) ==> tuple2_stopped(
                e@,
                old(buffer)@,
                self.0.wire(old(buffer)@.native),
                self.1.wire(old(buffer)@.native),
                final(buffer)@,
            ),
    {
        write_tuple2(self, buffer, Endian::Native)
    }

    fn write_to_bytey_buffer_le(&self, buffer: &mut ByteBuffer) -> (r: Result<(), ByteBufferError>)
        ensures
            r matches Err(e) ==> tuple2_stopped(
                e@,
                old(buffer)@,
                self.0.wire(ByteOrder::Little),
                self.1.wire(ByteOrder::Little),
                final(buffer)@,
            ),
    {
        write_tuple2(self, buffer, Endian::Little)
    }

    fn write_to_bytey_buffer_be(&self, buffer: &mut ByteBuffer) -> (r: Result<(), ByteBufferError>)
        ensures
            r matches Err(e) ==> tuple2_stopped(
                e@,
                old(buffer)@,
                self.0.wire(ByteOrder::Big),
                self.1.wire(ByteOrder::Big),
                final(buffer)@,
            ),
    {
        write_tuple2(self, buffer, Endian::Big)
    }
}

/// Writes the three members of `value` in the byte order that `endian` names.
pub fn write_tuple3<A: ByteBufferWrite, B: ByteBufferWrite, C: ByteBufferWrite>(
    value: &(A, B, C),
    buffer: &mut ByteBuffer,
    endian: Endian,
) -> (r: Result<(), ByteBufferError>)
    requires
        old(buffer).wf(),
    ensures
        write_outcome(
            old(buffer)@,
            value.wire(endian.order_on(old(buffer)@.native)),
            r is Ok,
            final(buffer)@,
        ),
        r matches Err(e) ==> tuple3_stopped(
            e@,
            old(buffer)@,
            value.0.wire(endian.order_on(old(buffer)@.native)),
            value.1.wire(endian.order_on(old(buffer)@.native)),
            value.2.wire(endian.order_on(old(buffer)@.native)),
            final(buffer)@,
        ),
{
    let ghost start = buffer@;
    let ghost order = endian.order_on(start.native);
    let head = (&value.0, &value.1);
    let first = write_tuple2(&head, buffer, endian);
    proof {
        lemma_write_first(
            start,
            head.wire(order),
            value.2.wire(order),
            value.wire(order),
            first is Ok,
            buffer@,
        );
    }
    if first.is_err() {
        return first;
    }
    let ghost current = buffer@;
    let last = write_member(&value.2, 2, buffer, endian);
    proof {
        lemma_write_step(
            start,
            current,
            head.wire(order),
            value.2.wire(order),
            Seq::empty(),
            value.wire(order),
            last is Ok,
            buffer@,
        );
    }
    last
}

impl<A: ByteBufferWrite, B: ByteBufferWrite, C: ByteBufferWrite> ByteBufferWrite for (A, B, C) {
    open spec fn wire(&self, order: ByteOrder) -> Seq<u8> {
        self.0.wire(order) + self.1.wire(order) + self.2.wire(order)
    }

    fn write_to_bytey_buffer(&self, buffer: &mut ByteBuffer) -> (r: Result<(), ByteBufferError>)
        ensures
            r matches Err(e) ==> tuple3_stopped(
                e@,
                old(buffer)@,
                self.0.wire(old(buffer)@.native),
                self.1.wire(old(buffer)@.native),
                self.2.wire(old(buffer)@.native),
                final(buffer)@,
            ),
    {
        write_tuple3(self, buffer, Endian::Native)
    }

    fn write_to_bytey_buffer_le(&self, buffer: &mut ByteBuffer) -> (r: Result<(), ByteBufferError>)
        ensures
            r matches Err(e) ==> tuple3_stopped(
                e@,
                old(buffer)@,
                self.0.wire(ByteOrder::Little),
                self.1.wire(ByteOrder::Little),
                self.2.wire(ByteOrder::Little),
                final(buffer)@,
            ),
    {
        write_tuple3(self, buffer, Endian::Little)
    }

    fn write_to_bytey_buffer_be(&self, buffer: &mut ByteBuffer) -> (r: Result<(), ByteBufferError>)
        ensures
            r matches Err(e) ==> tuple3_stopped(
                e@,
                old(buffer)@,
                self.0.wire(ByteOrder::Big),
                self.1.wire(ByteOrder::Big),
                self.2.wire(ByteOrder::Big),
                final(buffer)@,
            ),
    {
        write_tuple3(self, buffer, Endian::Big)
    }
}

/// Writes the four members of `value` in the byte order that `endian` names.
pub fn write_tuple4<A: ByteBufferWrite, B: ByteBufferWrite, C: ByteBufferWrite, D: ByteBufferWrite>(
    value: &(A, B, C, D),
    buffer: &mut ByteBuffer,
    endian: Endian,
) -> (r: Result<(), ByteBufferError>)
    requires
        old(buffer).wf(),
    ensures
        write_outcome(
            old(buffer)@,
            value.wire(endian.order_on(old(buffer)@.native)),
            r is Ok,
            final(buffer)@,
        ),
        r matches Err(e) ==> tuple4_stopped(
            e@,
            old(buffer)@,
            value.0.wire(endian.order_on(old(buffer)@.native)),
            value.1.wire(endian.order_on(old(buffer)@.native)),
            value.2.wire(endian.order_on(old(buffer)@.native)),
            value.3.wire(endian.order_on(old(buffer)@.native)),
            final(buffer)@,
        ),
{
    let ghost start = buffer@;
    let ghost order = endian.order_on(start.native);
    let head = (&value.0, &value.1, &value.2);
    let first = write_tuple3(&head, buffer, endian);
    proof {
        lemma_write_first(
            start,
            head.wire(order),
            value.3.wire(order),
            value.wire(order),
            first is Ok,
            buffer@,
        );
    }
    if first.is_err() {
        return first;
    }
    let ghost current = buffer@;
    let last = write_member(&value.3, 3, buffer, endian);
    proof {
        lemma_write_step(
            start,
            current,
            head.wire(order),
            value.3.wire(order),
            Seq::empty(),
            value.wire(order),
            last is Ok,
            buffer@,
        );
    }
    last
}

impl<
    A: ByteBufferWrite,
    B: ByteBufferWrite,
    C: ByteBufferWrite,
    D: ByteBufferWrite,
> ByteBufferWrite for (A, B, C, D) {
    open spec fn wire(&self, order: ByteOrder) -> Seq<u8> {
        self.0.wire(order) + self.1.wire(order) + self.2.wire(order) + self.3.wire(order)
    }

    fn write_to_bytey_buffer(&self, buffer: &mut ByteBuffer) -> (r: Result<(), ByteBufferError>)
        ensures
            r matches Err(e) ==> tuple4_stopped(
                e@,
                old(buffer)@,
                self.0.wire(old(buffer)@.native),
                self.1.wire(old(buffer)@.native),
                self.2.wire(old(buffer)@.native),
                self.3.wire(old(buffer)@.native),
                final(buffer)@,
            ),
    {
        write_tuple4(self, buffer, Endian::Native)
    }

    fn write_to_bytey_buffer_le(&self, buffer: &mut ByteBuffer) -> (r: Result<(), ByteBufferError>)
        ensures
            r matches Err(e) ==> tuple4_stopped(
                e@,
                old(buffer)@,
                self.0.wire(ByteOrder::Little),
                self.1.wire(ByteOrder::Little),
                self.2.wire(ByteOrder::Little),
                self.3.wire(ByteOrder::Little),
                final(buffer)@,
            ),
    {
        write_tuple4(self, buffer, Endian::Little)
    }

    fn write_to_bytey_buffer_be(&self, buffer: &mut ByteBuffer) -> (r: Result<(), ByteBufferError>)
        ensures
            r matches Err(e) ==> tuple4_stopped(
                e@,
                old(buffer)@,
                self.0.wire(ByteOrder::Big),
                self.1.wire(ByteOrder::Big),
                self.2.wire(ByteOrder::Big),
                self.3.wire(ByteOrder::Big),
                final(buffer)@,
            ),
    {
        write_tuple4(self, buffer, Endian::Big)
    }
}

/// Writes the five members of `value` in the byte order that `endian` names.
pub fn write_tuple5<
    A: ByteBufferWrite,
    B: ByteBufferWrite,
    C: ByteBufferWrite,
    D: ByteBufferWrite,
    E: ByteBufferWrite,
>(
    value: &(A, B, C, D, E),
    buffer: &mut ByteBuffer,
    endian: Endian,
) -> (r: Result<(), ByteBufferError>)
    requires
        old(buffer).wf(),
    ensures
        write_outcome(
            old(buffer)@,
            value.wire(endian.order_on(old(buffer)@.native)),
            r is Ok,
            final(buffer)@,
        ),
        r matches Err(e) ==> tuple5_stopped(
            e@,
            old(buffer)@,
            value.0.wire(endian.order_on(old(buffer)@.native)),
            value.1.wire(endian.order_on(old(buffer)@.native)),
            value.2.wire(endian.order_on(old(buffer)@.native)),
            value.3.wire(endian.order_on(old(buffer)@.native)),
            value.4.wire(endian.order_on(old(buffer)@.native)),
            final(buffer)@,
        ),
{
    let ghost start = buffer@;
    let ghost order = endian.order_on(start.native);
    let head = (&value.0, &value.1, &value.2, &value.3);
    let first = write_tuple4(&head, buffer, endian);
    proof {
        lemma_write_first(
            start,
            head.wire(order),
            value.4.wire(order),
            value.wire(order),
            first is Ok,
            buffer@,
        );
    }
    if first.is_err() {
        return first;
    }
    let ghost current = buffer@;
    let last = write_member(&value.4, 4, buffer, endian);
    proof {
        lemma_write_step(
            start,
            current,
            head.wire(order),
            value.4.wire(order),
            Seq::empty(),
            value.wire(order),
            last is Ok,
            buffer@,
        );
    }
    last
}

impl<
    A: ByteBufferWrite,
    B: ByteBufferWrite,
    C: ByteBufferWrite,
    D: ByteBufferWrite,
    E: ByteBufferWrite,
> ByteBufferWrite for (A, B, C, D, E) {
    open spec fn wire(&self, order: ByteOrder) -> Seq<u8> {
        self.0.wire(order)
            + self.1.wire(order) + self.2.wire(order) + self.3.wire(order) + self.4.wire(order)
    }

    fn write_to_bytey_buffer(&self, buffer: &mut ByteBuffer) -> (r: Result<(), ByteBufferError>)
        ensures
            r matches Err(e) ==> tuple5_stopped(
                e@,
                old(buffer)@,
                self.0.wire(old(buffer)@.native),
                self.1.wire(old(buffer)@.native),
                self.2.wire(old(buffer)@.native),
                self.3.wire(old(buffer)@.native),
                self.4.wire(old(buffer)@.native),
                final(buffer)@,
            ),
    {
        write_tuple5(self, buffer, Endian::Native)
    }

    fn write_to_bytey_buffer_le(&self, buffer: &mut ByteBuffer) -> (r: Result<(), ByteBufferError>)
        ensures
            r matches Err(e) ==> tuple5_stopped(
                e@,
                old(buffer)@,
                self.0.wire(ByteOrder::Little),
                self.1.wire(ByteOrder::Little),
                self.2.wire(ByteOrder::Little),
                self.3.wire(ByteOrder::Little),
                self.4.wire(ByteOrder::Little),
                final(buffer)@,
            ),
    {
        write_tuple5(self, buffer, Endian::Little)
    }

    fn write_to_bytey_buffer_be(&self, buffer: &mut ByteBuffer) -> (r: Result<(), ByteBufferError>)
        ensures
            r matches Err(e) ==> tuple5_stopped(
                e@,
                old(buffer)@,
                self.0.wire(ByteOrder::Big),
                self.1.wire(ByteOrder::Big),
                self.2.wire(ByteOrder::Big),
                self.3.wire(ByteOrder::Big),
                self.4.wire(ByteOrder::Big),
                final(buffer)@,
            ),
    {
        write_tuple5(self, buffer, Endian::Big)
    }
}

/// Writes the six members of `value` in the byte order that `endian` names.
pub fn write_tuple6<
    A: ByteBufferWrite,
    B: ByteBufferWrite,
    C: ByteBufferWrite,
    D: ByteBufferWrite,
    E: ByteBufferWrite,
    F: ByteBufferWrite,
>(
    value: &(A, B, C, D, E, F),
    buffer: &mut ByteBuffer,
    endian: Endian,
) -> (r: Result<(), ByteBufferError>)
    requires
        old(buffer).wf(),
    ensures
        write_outcome(
            old(buffer)@,
            value.wire(endian.order_on(old(buffer)@.native)),
            r is Ok,
            final(buffer)@,
        ),
        r matches Err(e) ==> tuple6_stopped(
            e@,
            old(buffer)@,
            value.0.wire(endian.order_on(old(buffer)@.native)),
            value.1.wire(endian.order_on(old(buffer)@.native)),
            value.2.wire(endian.order_on(old(buffer)@.native)),
            value.3.wire(endian.order_on(old(buffer)@.native)),
            value.4.wire(endian.order_on(old(buffer)@.native)),
            value.5.wire(endian.order_on(old(buffer)@.native)),
            final(buffer)@,
        ),
{
    let ghost start = buffer@;
    let ghost order = endian.order_on(start.native);
    let head = (&value.0, &value.1, &value.2, &value.3, &value.4);
    let first = write_tuple5(&head, buffer, endian);
    proof {
        lemma_write_first(
            start,
            head.wire(order),
            value.5.wire(order),
            value.wire(order),
            first is Ok,
            buffer@,
        );
    }
    if first.is_err() {
        return first;
    }
    let ghost current = buffer@;
    let last = write_member(&value.5, 5, buffer, endian);
    proof {
        lemma_write_step(
            start,
            current,
            head.wire(order),
            value.5.wire(order),
            Seq::empty(),
            value.wire(order),
            last is Ok,
            buffer@,
        );
    }
    last
}

impl<
    A: ByteBufferWrite,
    B: ByteBufferWrite,
    C: ByteBufferWrite,
    D: ByteBufferWrite,
    E: ByteBufferWrite,
    F: ByteBufferWrite,
> ByteBufferWrite for (A, B, C, D, E, F) {
    open spec fn wire(&self, order: ByteOrder) -> Seq<u8> {
        self.0.wire(order)
            + self.1.wire(order) + self.2.wire(order) + self.3.wire(order) + self.4.wire(order)
            + self.5.wire(order)
    }

    fn write_to_bytey_buffer(&self, buffer: &mut ByteBuffer) -> (r: Result<(), ByteBufferError>)
        ensures
            r matches Err(e) ==> tuple6_stopped(
                e@,
                old(buffer)@,
                self.0.wire(old(buffer)@.native),
                self.1.wire(old(buffer)@.native),
                self.2.wire(old(buffer)@.native),
                self.3.wire(old(buffer)@.native),
                self.4.wire(old(buffer)@.native),
                self.5.wire(old(buffer)@.native),
                final(buffer)@,
            ),
    {
        write_tuple6(self, buffer, Endian::Native)
    }

    fn write_to_bytey_buffer_le(&self, buffer: &mut ByteBuffer) -> (r: Result<(), ByteBufferError>)
        ensures
            r matches Err(e) ==> tuple6_stopped(
                e@,
                old(buffer)@,
                self.0.wire(ByteOrder::Little),
                self.1.wire(ByteOrder::Little),
                self.2.wire(ByteOrder::Little),
                self.3.wire(ByteOrder::Little),
                self.4.wire(ByteOrder::Little),
                self.5.wire(ByteOrder::Little),
                final(buffer)@,
            ),
    {
        write_tuple6(self, buffer, Endian::Little)
    }

    fn write_to_bytey_buffer_be(&self, buffer: &mut ByteBuffer) -> (r: Result<(), ByteBufferError>)
        ensures
            r matches Err(e) ==> tuple6_stopped(
                e@,
                old(buffer)@,
                self.0.wire(ByteOrder::Big),
                self.1.wire(ByteOrder::Big),
                self.2.wire(ByteOrder::Big),
                self.3.wire(ByteOrder::Big),
                self.4.wire(ByteOrder::Big),
                self.5.wire(ByteOrder::Big),
                final(buffer)@,
            ),
    {
        write_tuple6(self, buffer, Endian::Big)
    }
}

/// Writes the seven members of `value` in the byte order that `endian` names.
pub fn write_tuple7<
    A: ByteBufferWrite,
    B: ByteBufferWrite,
    C: ByteBufferWrite,
    D: ByteBufferWrite,
    E: ByteBufferWrite,
    F: ByteBufferWrite,
    G: ByteBufferWrite,
>(
    value: &(A, B, C, D, E, F, G),
    buffer: &mut ByteBuffer,
    endian: Endian,
) -> (r: Result<(), ByteBufferError>)
    requires
        old(buffer).wf(),
    ensures
        write_outcome(
            old(buffer)@,
            value.wire(endian.order_on(old(buffer)@.native)),
            r is Ok,
            final(buffer)@,
        ),
        r matches Err(e) ==> tuple7_stopped(
            e@,
            old(buffer)@,
            value.0.wire(endian.order_on(old(buffer)@.native)),
            value.1.wire(endian.order_on(old(buffer)@.native)),
            value.2.wire(endian.order_on(old(buffer)@.native)),
            value.3.wire(endian.order_on(old(buffer)@.native)),
            value.4.wire(endian.order_on(old(buffer)@.native)),
            value.5.wire(endian.order_on(old(buffer)@.native)),
            value.6.wire(endian.order_on(old(buffer)@.native)),
            final(buffer)@,
        ),
{
    let ghost start = buffer@;
    let ghost order = endian.order_on(start.native);
    let head = (&value.0, &value.1, &value.2, &value.3, &value.4, &value.5);
    let first = write_tuple6(&head, buffer, endian);
    proof {
        lemma_write_first(
            start,
            head.wire(order),
            value.6.wire(order),
            value.wire(order),
            first is Ok,
            buffer@,
        );
    }
    if first.is_err() {
        return first;
    }
    let ghost current = buffer@;
    let last = write_member(&value.6, 6, buffer, endian);
    proof {
        lemma_write_step(
            start,
            current,
            head.wire(order),
            value.6.wire(order),
            Seq::empty(),
            value.wire(order),
            last is Ok,
            buffer@,
        );
    }
    last
}

impl<
    A: ByteBufferWrite,
    B: ByteBufferWrite,
    C: ByteBufferWrite,
    D: ByteBufferWrite,
    E: ByteBufferWrite,
    F: ByteBufferWrite,
    G: ByteBufferWrite,
> ByteBufferWrite for (A, B, C, D, E, F, G) {
    open spec fn wire(&self, order: ByteOrder) -> Seq<u8> {
        self.0.wire(order)
            + self.1.wire(order) + self.2.wire(order) + self.3.wire(order) + self.4.wire(order)
            + self.5.wire(order) + self.6.wire(order)
    }

    fn write_to_bytey_buffer(&self, buffer: &mut ByteBuffer) -> (r: Result<(), ByteBufferError>)
        ensures
            r matches Err(e) ==> tuple7_stopped(
                e@,
                old(buffer)@,
                self.0.wire(old(buffer)@.native),
                self.1.wire(old(buffer)@.native),
                self.2.wire(old(buffer)@.native),
                self.3.wire(old(buffer)@.native),
                self.4.wire(old(buffer)@.native),
                self.5.wire(old(buffer)@.native),
                self.6.wire(old(buffer)@.native),
                final(buffer)@,
            ),
    {
        write_tuple7(self, buffer, Endian::Native)
    }

    fn write_to_bytey_buffer_le(&self, buffer: &mut ByteBuffer) -> (r: Result<(), ByteBufferError>)
        ensures
            r matches Err(e) ==> tuple7_stopped(
                e@,
                old(buffer)@,
                self.0.wire(ByteOrder::Little),
                self.1.wire(ByteOrder::Little),
                self.2.wire(ByteOrder::Little),
                self.3.wire(ByteOrder::Little),
                self.4.wire(ByteOrder::Little),
                self.5.wire(ByteOrder::Little),
                self.6.wire(ByteOrder::Little),
                final(buffer)@,
            ),
    {
        write_tuple7(self, buffer, Endian::Little)
    }

    fn write_to_bytey_buffer_be(&self, buffer: &mut ByteBuffer) -> (r: Result<(), ByteBufferError>)
        ensures
            r matches Err(e) ==> tuple7_stopped(
                e@,
                old(buffer)@,
                self.0.wire(ByteOrder::Big),
                self.1.wire(ByteOrder::Big),
                self.2.wire(ByteOrder::Big),
                self.3.wire(ByteOrder::Big),
                self.4.wire(ByteOrder::Big),
                self.5.wire(ByteOrder::Big),
                self.6.wire(ByteOrder::Big),
                final(buffer)@,
            ),
    {
        write_tuple7(self, buffer, Endian::Big)
    }
}

/// Writes the eight members of `value` in the byte order that `endian` names.
pub fn write_tuple8<
    A: ByteBufferWrite,
    B: ByteBufferWrite,
    C: ByteBufferWrite,
    D: ByteBufferWrite,
    E: ByteBufferWrite,
    F: ByteBufferWrite,
    G: ByteBufferWrite,
    H: ByteBufferWrite,
>(
    value: &(A, B, C, D, E, F, G, H),
    buffer: &mut ByteBuffer,
    endian: Endian,
) -> (r: Result<(), ByteBufferError>)
    requires
        old(buffer).wf(),
    ensures
        write_outcome(
            old(buffer)@,
            value.wire(endian.order_on(old(buffer)@.native)),
            r is Ok,
            final(buffer)@,
        ),
        r matches Err(e) ==> tuple8_stopped(
            e@,
            old(buffer)@,
            value.0.wire(endian.order_on(old(buffer)@.native)),
            value.1.wire(endian.order_on(old(buffer)@.native)),
            value.2.wire(endian.order_on(old(buffer)@.native)),
            value.3.wire(endian.order_on(old(buffer)@.native)),
            value.4.wire(endian.order_on(old(buffer)@.native)),
            value.5.wire(endian.order_on(old(buffer)@.native)),
            value.6.wire(endian.order_on(old(buffer)@.native)),
            value.7.wire(endian.order_on(old(buffer)@.native)),
            final(buffer)@,
        ),
{
    let ghost start = buffer@;
    let ghost order = endian.order_on(start.native);
    let head = (&value.0, &value.1, &value.2, &value.3, &value.4, &value.5, &value.6);
    let first = write_tuple7(&head, buffer, endian);
    proof {
        lemma_write_first(
            start,
            head.wire(order),
            value.7.wire(order),
            value.wire(order),
            first is Ok,
            buffer@,
        );
    }
    if first.is_err() {
        return first;
    }
    let ghost current = buffer@;
    let last = write_member(&value.7, 7, buffer, endian);
    proof {
        lemma_write_step(
            start,
            current,
            head.wire(order),
            value.7.wire(order),
            Seq::empty(),
            value.wire(order),
            last is Ok,
            buffer@,
        );
    }
    last
}

impl<
    A: ByteBufferWrite,
    B: ByteBufferWrite,
    C: ByteBufferWrite,
    D: ByteBufferWrite,
    E: ByteBufferWrite,
    F: ByteBufferWrite,
    G: ByteBufferWrite,
    H: ByteBufferWrite,
> ByteBufferWrite for (A, B, C, D, E, F, G, H) {
    open spec fn wire(&self, order: ByteOrder) -> Seq<u8> {
        self.0.wire(order)
            + self.1.wire(order) + self.2.wire(order) + self.3.wire(order) + self.4.wire(order)
            + self.5.wire(order) + self.6.wire(order) + self.7.wire(order)
    }

    fn write_to_bytey_buffer(&self, buffer: &mut ByteBuffer) -> (r: Result<(), ByteBufferError>)
        ensures
            r matches Err(e) ==> tuple8_stopped(
                e@,
                old(buffer)@,
                self.0.wire(old(buffer)@.native),
                self.1.wire(old(buffer)@.native),
                self.2.wire(old(buffer)@.native),
                self.3.wire(old(buffer)@.native),
                self.4.wire(old(buffer)@.native),
                self.5.wire(old(buffer)@.native),
                self.6.wire(old(buffer)@.native),
                self.7.wire(old(buffer)@.native),
                final(buffer)@,
            ),
    {
        write_tuple8(self, buffer, Endian::Native)
    }

    fn write_to_bytey_buffer_le(&self, buffer: &mut ByteBuffer) -> (r: Result<(), ByteBufferError>)
        ensures
            r matches Err(e) ==> tuple8_stopped(
                e@,
                old(buffer)@,
                self.0.wire(ByteOrder::Little),
                self.1.wire(ByteOrder::Little),
                self.2.wire(ByteOrder::Little),
                self.3.wire(ByteOrder::Little),
                self.4.wire(ByteOrder::Little),
                self.5.wire(ByteOrder::Little),
                self.6.wire(ByteOrder::Little),
                self.7.wire(ByteOrder::Little),
                final(buffer)@,
            ),
    {
        write_tuple8(self, buffer, Endian::Little)
    }

    fn write_to_bytey_buffer_be(&self, buffer: &mut ByteBuffer) -> (r: Result<(), ByteBufferError>)
        ensures
            r matches Err(e) ==> tuple8_stopped(
                e@,
                old(buffer)@,
                self.0.wire(ByteOrder::Big),
                self.1.wire(ByteOrder::Big),
                self.2.wire(ByteOrder::Big),
                self.3.wire(ByteOrder::Big),
                self.4.wire(ByteOrder::Big),
                self.5.wire(ByteOrder::Big),
                self.6.wire(ByteOrder::Big),
                self.7.wire(ByteOrder::Big),
                final(buffer)@,
            ),
    {
        write_tuple8(self, buffer, Endian::Big)
    }
}

/// Writes the nine members of `value` in the byte order that `endian` names.
pub fn write_tuple9<
    A: ByteBufferWrite,
    B: ByteBufferWrite,
    C: ByteBufferWrite,
    D: ByteBufferWrite,
    E: ByteBufferWrite,
    F: ByteBufferWrite,
    G: ByteBufferWrite,
    H: ByteBufferWrite,
    I: ByteBufferWrite,
>(
    value: &(A, B, C, D, E, F, G, H, I),
    buffer: &mut ByteBuffer,
    endian: Endian,
) -> (r: Result<(), ByteBufferError>)
    requires
        old(buffer).wf(),
    ensures
        write_outcome(
            old(buffer)@,
            value.wire(endian.order_on(old(buffer)@.native)),
            r is Ok,
            final(buffer)@,
        ),
        r matches Err(e) ==> tuple9_stopped(
            e@,
            old(buffer)@,
            value.0.wire(endian.order_on(old(buffer)@.native)),
            value.1.wire(endian.order_on(old(buffer)@.native)),
            value.2.wire(endian.order_on(old(buffer)@.native)),
            value.3.wire(endian.order_on(old(buffer)@.native)),
            value.4.wire(endian.order_on(old(buffer)@.native)),
            value.5.wire(endian.order_on(old(buffer)@.native)),
            value.6.wire(endian.order_on(old(buffer)@.native)),
            value.7.wire(endian.order_on(old(buffer)@.native)),
            value.8.wire(endian.order_on(old(buffer)@.native)),
            final(buffer)@,
        ),
{
    let ghost start = buffer@;
    let ghost order = endian.order_on(start.native);
    let head = (&value.0, &value.1, &value.2, &value.3, &value.4, &value.5, &value.6, &value.7);
    let first = write_tuple8(&head, buffer, endian);
    proof {
        lemma_write_first(
            start,
            head.wire(order),
            value.8.wire(order),
            value.wire(order),
            first is Ok,
            buffer@,
        );
    }
    if first.is_err() {
        return first;
    }
    let ghost current = buffer@;
    let last = write_member(&value.8, 8, buffer, endian);
    proof {
        lemma_write_step(
            start,
            current,
            head.wire(order),
            value.8.wire(order),
            Seq::empty(),
            value.wire(order),
            last is Ok,
            buffer@,
        );
    }
    last
}

impl<
    A: ByteBufferWrite,
    B: ByteBufferWrite,
    C: ByteBufferWrite,
    D: ByteBufferWrite,
    E: ByteBufferWrite,
    F: ByteBufferWrite,
    G: ByteBufferWrite,
    H: ByteBufferWrite,
    I: ByteBufferWrite,
> ByteBufferWrite for (A, B, C, D, E, F, G, H, I) {
    open spec fn wire(&self, order: ByteOrder) -> Seq<u8> {
        self.0.wire(order)
            + self.1.wire(order) + self.2.wire(order) + self.3.wire(order) + self.4.wire(order)
            + self.5.wire(order) + self.6.wire(order) + self.7.wire(order) + self.8.wire(order)
    }

    fn write_to_bytey_buffer(&self, buffer: &mut ByteBuffer) -> (r: Result<(), ByteBufferError>)
        ensures
            r matches Err(e) ==> tuple9_stopped(
                e@,
                old(buffer)@,
                self.0.wire(old(buffer)@.native),
                self.1.wire(old(buffer)@.native),
                self.2.wire(old(buffer)@.native),
                self.3.wire(old(buffer)@.native),
                self.4.wire(old(buffer)@.native),
                self.5.wire(old(buffer)@.native),
                self.6.wire(old(buffer)@.native),
                self.7.wire(old(buffer)@.native),
                self.8.wire(old(buffer)@.native),
                final(buffer)@,
            ),
    {
        write_tuple9(self, buffer, Endian::Native)
    }

    fn write_to_bytey_buffer_le(&self, buffer: &mut ByteBuffer) -> (r: Result<(), ByteBufferError>)
        ensures
            r matches Err(e) ==> tuple9_stopped(
                e@,
                old(buffer)@,
                self.0.wire(ByteOrder::Little),
                self.1.wire(ByteOrder::Little),
                self.2.wire(ByteOrder::Little),
                self.3.wire(ByteOrder::Little),
                self.4.wire(ByteOrder::Little),
                self.5.wire(ByteOrder::Little),
                self.6.wire(ByteOrder::Little),
                self.7.wire(ByteOrder::Little),
                self.8.wire(ByteOrder::Little),
                final(buffer)@,
            ),
    {
        write_tuple9(self, buffer, Endian::Little)
    }

    fn write_to_bytey_buffer_be(&self, buffer: &mut ByteBuffer) -> (r: Result<(), ByteBufferError>)
        ensures
            r matches Err(e) ==> tuple9_stopped(
                e@,
                old(buffer)@,
                self.0.wire(ByteOrder::Big),
                self.1.wire(ByteOrder::Big),
                self.2.wire(ByteOrder::Big),
                self.3.wire(ByteOrder::Big),
                self.4.wire(ByteOrder::Big),
                self.5.wire(ByteOrder::Big),
                self.6.wire(ByteOrder::Big),
                self.7.wire(ByteOrder::Big),
                self.8.wire(ByteOrder::Big),
                final(buffer)@,
            ),
    {
        write_tuple9(self, buffer, Endian::Big)
    }
}

/// Writes the ten members of `value` in the byte order that `endian` names.
pub fn write_tuple10<
    A: ByteBufferWrite,
    B: ByteBufferWrite,
    C: ByteBufferWrite,
    D: ByteBufferWrite,
    E: ByteBufferWrite,
    F: ByteBufferWrite,
    G: ByteBufferWrite,
    H: ByteBufferWrite,
    I: ByteBufferWrite,
    J: ByteBufferWrite,
>(
    value: &(A, B, C, D, E, F, G, H, I, J),
    buffer: &mut ByteBuffer,
    endian: Endian,
) -> (r: Result<(), ByteBufferError>)
    requires
        old(buffer).wf(),
    ensures
        write_outcome(
            old(buffer)@,
            value.wire(endian.order_on(old(buffer)@.native)),
            r is Ok,
            final(buffer)@,
        ),
        r matches Err(e) ==> tuple10_stopped(
            e@,
            old(buffer)@,
            value.0.wire(endian.order_on(old(buffer)@.native)),
            value.1.wire(endian.order_on(old(buffer)@.native)),
            value.2.wire(endian.order_on(old(buffer)@.native)),
            value.3.wire(endian.order_on(old(buffer)@.native)),
            value.4.wire(endian.order_on(old(buffer)@.native)),
            value.5.wire(endian.order_on(old(buffer)@.native)),
            value.6.wire(endian.order_on(old(buffer)@.native)),
            value.7.wire(endian.order_on(old(buffer)@.native)),
            value.8.wire(endian.order_on(old(buffer)@.native)),
            value.9.wire(endian.order_on(old(buffer)@.native)),
            final(buffer)@,
        ),
{
    let ghost start = buffer@;
    let ghost order = endian.order_on(start.native);
    let head = (
        &value.0,
        &value.1,
        &value.2,
        &value.3,
        &value.4,
        &value.5,
        &value.6,
        &value.7,
        &value.8,
    );
    let first = write_tuple9(&head, buffer, endian);
    proof {
        lemma_write_first(
            start,
            head.wire(order),
            value.9.wire(order),
            value.wire(order),
            first is Ok,
            buffer@,
        );
    }
    if first.is_err() {
        return first;
    }
    let ghost current = buffer@;
    let last = write_member(&value.9, 9, buffer, endian);
    proof {
        lemma_write_step(
            start,
            current,
            head.wire(order),
            value.9.wire(order),
            Seq::empty(),
            value.wire(order),
            last is Ok,
            buffer@,
        );
    }
    last
}

impl<
    A: ByteBufferWrite,
    B: ByteBufferWrite,
    C: ByteBufferWrite,
    D: ByteBufferWrite,
    E: ByteBufferWrite,
    F: ByteBufferWrite,
    G: ByteBufferWrite,
    H: ByteBufferWrite,
    I: ByteBufferWrite,
    J: ByteBufferWrite,
> ByteBufferWrite for (A, B, C, D, E, F, G, H, I, J) {
    open spec fn wire(&self, order: ByteOrder) -> Seq<u8> {
        self.0.wire(order)
            + self.1.wire(order) + self.2.wire(order) + self.3.wire(order) + self.4.wire(order)
            + self.5.wire(order) + self.6.wire(order) + self.7.wire(order) + self.8.wire(order)
            + self.9.wire(order)
    }

    fn write_to_bytey_buffer(&self, buffer: &mut ByteBuffer) -> (r: Result<(), ByteBufferError>)
        ensures
            r matches Err(e) ==> tuple10_stopped(
                e@,
                old(buffer)@,
                self.0.wire(old(buffer)@.native),
                self.1.wire(old(buffer)@.native),
                self.2.wire(old(buffer)@.native),
                self.3.wire(old(buffer)@.native),
                self.4.wire(old(buffer)@.native),
                self.5.wire(old(buffer)@.native),
                self.6.wire(old(buffer)@.native),
                self.7.wire(old(buffer)@.native),
                self.8.wire(old(buffer)@.native),
                self.9.wire(old(buffer)@.native),
                final(buffer)@,
            ),
    {
        write_tuple10(self, buffer, Endian::Native)
    }

    fn write_to_bytey_buffer_le(&self, buffer: &mut ByteBuffer) -> (r: Result<(), ByteBufferError>)
        ensures
            r matches Err(e) ==> tuple10_stopped(
                e@,
                old(buffer)@,
                self.0.wire(ByteOrder::Little),
                self.1.wire(ByteOrder::Little),
                self.2.wire(ByteOrder::Little),
                self.3.wire(ByteOrder::Little),
                self.4.wire(ByteOrder::Little),
                self.5.wire(ByteOrder::Little),
                self.6.wire(ByteOrder::Little),
                self.7.wire(ByteOrder::Little),
                self.8.wire(ByteOrder::Little),
                self.9.wire(ByteOrder::Little),
                final(buffer)@,
            ),
    {
        write_tuple10(self, buffer, Endian::Little)
    }

    fn write_to_bytey_buffer_be(&self, buffer: &mut ByteBuffer) -> (r: Result<(), ByteBufferError>)
        ensures
            r matches Err(e) ==> tuple10_stopped(
                e@,
                old(buffer)@,
                self.0.wire(ByteOrder::Big),
                self.1.wire(ByteOrder::Big),
                self.2.wire(ByteOrder::Big),
                self.3.wire(ByteOrder::Big),
                self.4.wire(ByteOrder::Big),
                self.5.wire(ByteOrder::Big),
                self.6.wire(ByteOrder::Big),
                self.7.wire(ByteOrder::Big),
                self.8.wire(ByteOrder::Big),
                self.9.wire(ByteOrder::Big),
                final(buffer)@,
            ),
    {
        write_tuple10(self, buffer, Endian::Big)
    }
}

/// Writes the eleven members of `value` in the byte order that `endian` names.
pub fn write_tuple11<
    A: ByteBufferWrite,
    B: ByteBufferWrite,
    C: ByteBufferWrite,
    D: ByteBufferWrite,
    E: ByteBufferWrite,
    F: ByteBufferWrite,
    G: ByteBufferWrite,
    H: ByteBufferWrite,
    I: ByteBufferWrite,
    J: ByteBufferWrite,
    K: ByteBufferWrite,
>(
    value: &(A, B, C, D, E, F, G, H, I, J, K),
    buffer: &mut ByteBuffer,
    endian: Endian,
) -> (r: Result<(), ByteBufferError>)
    requires
        old(buffer).wf(),
    ensures
        write_outcome(
            old(buffer)@,
            value.wire(endian.order_on(old(buffer)@.native)),
            r is Ok,
            final(buffer)@,
        ),
        r matches Err(e) ==> tuple11_stopped(
            e@,
            old(buffer)@,
            value.0.wire(endian.order_on(old(buffer)@.native)),
            value.1.wire(endian.order_on(old(buffer)@.native)),
            value.2.wire(endian.order_on(old(buffer)@.native)),
            value.3.wire(endian.order_on(old(buffer)@.native)),
            value.4.wire(endian.order_on(old(buffer)@.native)),
            value.5.wire(endian.order_on(old(buffer)@.native)),
            value.6.wire(endian.order_on(old(buffer)@.native)),
            value.7.wire(endian.order_on(old(buffer)@.native)),
            value.8.wire(endian.order_on(old(buffer)@.native)),
            value.9.wire(endian.order_on(old(buffer)@.native)),
            value.10.wire(endian.order_on(old(buffer)@.native)),
            final(buffer)@,
        ),
{
    let ghost start = buffer@;
    let ghost order = endian.order_on(start.native);
    let head = (
        &value.0,
        &value.1,
        &value.2,
        &value.3,
        &value.4,
        &value.5,
        &value.6,
        &value.7,
        &value.8,
        &value.9,
    );
    let first = write_tuple10(&head, buffer, endian);
    proof {
        lemma_write_first(
            start,
            head.wire(order),
            value.10.wire(order),
            value.wire(order),
            first is Ok,
            buffer@,
        );
    }
    if first.is_err() {
        return first;
    }
    let ghost current = buffer@;
    let last = write_member(&value.10, 10, buffer, endian);
    proof {
        lemma_write_step(
            start,
            current,
            head.wire(order),
            value.10.wire(order),
            Seq::empty(),
            value.wire(order),
            last is Ok,
            buffer@,
        );
    }
    last
}

impl<
    A: ByteBufferWrite,
    B: ByteBufferWrite,
    C: ByteBufferWrite,
    D: ByteBufferWrite,
    E: ByteBufferWrite,
    F: ByteBufferWrite,
    G: ByteBufferWrite,
    H: ByteBufferWrite,
    I: ByteBufferWrite,
    J: ByteBufferWrite,
    K: ByteBufferWrite,
> ByteBufferWrite for (A, B, C, D, E, F, G, H, I, J, K) {
    open spec fn wire(&self, order: ByteOrder) -> Seq<u8> {
        self.0.wire(order)
            + self.1.wire(order) + self.2.wire(order) + self.3.wire(order) + self.4.wire(order)
            + self.5.wire(order) + self.6.wire(order) + self.7.wire(order) + self.8.wire(order)
            + self.9.wire(order) + self.10.wire(order)
    }

    fn write_to_bytey_buffer(&self, buffer: &mut ByteBuffer) -> (r: Result<(), ByteBufferError>)
        ensures
            r matches Err(e) ==> tuple11_stopped(
                e@,
                old(buffer)@,
                self.0.wire(old(buffer)@.native),
                self.1.wire(old(buffer)@.native),
                self.2.wire(old(buffer)@.native),
                self.3.wire(old(buffer)@.native),
                self.4.wire(old(buffer)@.native),
                self.5.wire(old(buffer)@.native),
                self.6.wire(old(buffer)@.native),
                self.7.wire(old(buffer)@.native),
                self.8.wire(old(buffer)@.native),
                self.9.wire(old(buffer)@.native),
                self.10.wire(old(buffer)@.native),
                final(buffer)@,
            ),
    {
        write_tuple11(self, buffer, Endian::Native)
    }

    fn write_to_bytey_buffer_le(&self, buffer: &mut ByteBuffer) -> (r: Result<(), ByteBufferError>)
        ensures
            r matches Err(e) ==> tuple11_stopped(
                e@,
                old(buffer)@,
                self.0.wire(ByteOrder::Little),
                self.1.wire(ByteOrder::Little),
                self.2.wire(ByteOrder::Little),
                self.3.wire(ByteOrder::Little),
                self.4.wire(ByteOrder::Little),
                self.5.wire(ByteOrder::Little),
                self.6.wire(ByteOrder::Little),
                self.7.wire(ByteOrder::Little),
                self.8.wire(ByteOrder::Little),
                self.9.wire(ByteOrder::Little),
                self.10.wire(ByteOrder::Little),
                final(buffer)@,
            ),
    {
        write_tuple11(self, buffer, Endian::Little)
    }

    fn write_to_bytey_buffer_be(&self, buffer: &mut ByteBuffer) -> (r: Result<(), ByteBufferError>)
        ensures
            r matches Err(e) ==> tuple11_stopped(
                e@,
                old(buffer)@,
                self.0.wire(ByteOrder::Big),
                self.1.wire(ByteOrder::Big),
                self.2.wire(ByteOrder::Big),
                self.3.wire(ByteOrder::Big),
                self.4.wire(ByteOrder::Big),
                self.5.wire(ByteOrder::Big),
                self.6.wire(ByteOrder::Big),
                self.7.wire(ByteOrder::Big),
                self.8.wire(ByteOrder::Big),
                self.9.wire(ByteOrder::Big),
                self.10.wire(ByteOrder::Big),
                final(buffer)@,
            ),
    {
        write_tuple11(self, buffer, Endian::Big)
    }
}

/// Writes the twelve members of `value` in the byte order that `endian` names.
pub fn write_tuple12<
    A: ByteBufferWrite,
    B: ByteBufferWrite,
    C: ByteBufferWrite,
    D: ByteBufferWrite,
    E: ByteBufferWrite,
    F: ByteBufferWrite,
    G: ByteBufferWrite,
    H: ByteBufferWrite,
    I: ByteBufferWrite,
    J: ByteBufferWrite,
    K: ByteBufferWrite,
    L: ByteBufferWrite,
>(
    value: &(A, B, C, D, E, F, G, H, I, J, K, L),
    buffer: &mut ByteBuffer,
    endian: Endian,
) -> (r: Result<(), ByteBufferError>)
    requires
        old(buffer).wf(),
    ensures
        write_outcome(
            old(buffer)@,
            value.wire(endian.order_on(old(buffer)@.native)),
            r is Ok,
            final(buffer)@,
        ),
        r matches Err(e) ==> tuple12_stopped(
            e@,
            old(buffer)@,
            value.0.wire(endian.order_on(old(buffer)@.native)),
            value.1.wire(endian.order_on(old(buffer)@.native)),
            value.2.wire(endian.order_on(old(buffer)@.native)),
            value.3.wire(endian.order_on(old(buffer)@.native)),
            value.4.wire(endian.order_on(old(buffer)@.native)),
            value.5.wire(endian.order_on(old(buffer)@.native)),
            value.6.wire(endian.order_on(old(buffer)@.native)),
            value.7.wire(endian.order_on(old(buffer)@.native)),
            value.8.wire(endian.order_on(old(buffer)@.native)),
            value.9.wire(endian.order_on(old(buffer)@.native)),
            value.10.wire(endian.order_on(old(buffer)@.native)),
            value.11.wire(endian.order_on(old(buffer)@.native)),
            final(buffer)@,
        ),
{
    let ghost start = buffer@;
    let ghost order = endian.order_on(start.native);
    let head = (
        &value.0,
        &value.1,
        &value.2,
        &value.3,
        &value.4,
        &value.5,
        &value.6,
        &value.7,
        &value.8,
        &value.9,
        &value.10,
    );
    let first = write_tuple11(&head, buffer, endian);
    proof {
        lemma_write_first(
            start,
            head.wire(order),
            value.11.wire(order),
            value.wire(order),
            first is Ok,
            buffer@,
        );
    }
    if first.is_err() {
        return first;
    }
    let ghost current = buffer@;
    let last = write_member(&value.11, 11, buffer, endian);
    proof {
        lemma_write_step(
            start,
            current,
            head.wire(order),
            value.11.wire(order),
            Seq::empty(),
            value.wire(order),
            last is Ok,
            buffer@,
        );
    }
    last
}

impl<
    A: ByteBufferWrite,
    B: ByteBufferWrite,
    C: ByteBufferWrite,
    D: ByteBufferWrite,
    E: ByteBufferWrite,
    F: ByteBufferWrite,
    G: ByteBufferWrite,
    H: ByteBufferWrite,
    I: ByteBufferWrite,
    J: ByteBufferWrite,
    K: ByteBufferWrite,
    L: ByteBufferWrite,
> ByteBufferWrite for (A, B, C, D, E, F, G, H, I, J, K, L) {
    open spec fn wire(&self, order: ByteOrder) -> Seq<u8> {
        self.0.wire(order)
            + self.1.wire(order) + self.2.wire(order) + self.3.wire(order) + self.4.wire(order)
            + self.5.wire(order) + self.6.wire(order) + self.7.wire(order) + self.8.wire(order)
            + self.9.wire(order) + self.10.wire(order) + self.11.wire(order)
    }

    fn write_to_bytey_buffer(&self, buffer: &mut ByteBuffer) -> (r: Result<(), ByteBufferError>)
        ensures
            r matches Err(e) ==> tuple12_stopped(
                e@,
                old(buffer)@,
                self.0.wire(old(buffer)@.native),
                self.1.wire(old(buffer)@.native),
                self.2.wire(old(buffer)@.native),
                self.3.wire(old(buffer)@.native),
                self.4.wire(old(buffer)@.native),
                self.5.wire(old(buffer)@.native),
                self.6.wire(old(buffer)@.native),
                self.7.wire(old(buffer)@.native),
                self.8.wire(old(buffer)@.native),
                self.9.wire(old(buffer)@.native),
                self.10.wire(old(buffer)@.native),
                self.11.wire(old(buffer)@.native),
                final(buffer)@,
            ),
    {
        write_tuple12(self, buffer, Endian::Native)
    }

    fn write_to_bytey_buffer_le(&self, buffer: &mut ByteBuffer) -> (r: Result<(), ByteBufferError>)
        ensures
            r matches Err(e) ==> tuple12_stopped(
                e@,
                old(buffer)@,
                self.0.wire(ByteOrder::Little),
                self.1.wire(ByteOrder::Little),
                self.2.wire(ByteOrder::Little),
                self.3.wire(ByteOrder::Little),
                self.4.wire(ByteOrder::Little),
                self.5.wire(ByteOrder::Little),
                self.6.wire(ByteOrder::Little),
                self.7.wire(ByteOrder::Little),
                self.8.wire(ByteOrder::Little),
                self.9.wire(ByteOrder::Little),
                self.10.wire(ByteOrder::Little),
                self.11.wire(ByteOrder::Little),
                final(buffer)@,
            ),
    {
        write_tuple12(self, buffer, Endian::Little)
    }

    fn write_to_bytey_buffer_be(&self, buffer: &mut ByteBuffer) -> (r: Result<(), ByteBufferError>)
        ensures
            r matches Err(e) ==> tuple12_stopped(
                e@,
                old(buffer)@,
                self.0.wire(ByteOrder::Big),
                self.1.wire(ByteOrder::Big),
                self.2.wire(ByteOrder::Big),
                self.3.wire(ByteOrder::Big),
                self.4.wire(ByteOrder::Big),
                self.5.wire(ByteOrder::Big),
                self.6.wire(ByteOrder::Big),
                self.7.wire(ByteOrder::Big),
                self.8.wire(ByteOrder::Big),
                self.9.wire(ByteOrder::Big),
                self.10.wire(ByteOrder::Big),
                self.11.wire(ByteOrder::Big),
                final(buffer)@,
            ),
    {
        write_tuple12(self, buffer, Endian::Big)
    }
}

} // verus!
