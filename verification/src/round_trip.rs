//! What is written can be read back: the laws that tie the two halves of the codec together.
//!
//! The law of a value, [`reads_back`], is stated with a tail: bytes that are written behind
//! the value. It says that a read finds the value and stops where the tail begins, which is
//! what lets the law of a composite value follow from the laws of its parts. With an empty
//! tail it is the plain round trip, [`round_trips`].

use crate::byte_buffer::{lemma_put_put, BufferView};
use crate::byte_buffer_read::arrays::{models, read_items_spec};
use crate::byte_buffer_read::integers::read_unsigned_spec;
use crate::byte_buffer_read::time::NANOS_PER_SEC;
use crate::byte_buffer_read::ByteBufferRead;
use crate::byte_buffer_write::arrays::{lemma_wire_all_concat, wire_all};
use crate::byte_buffer_write::byte::lemma_byte_wire;
use crate::byte_buffer_write::time::{duration_secs, duration_subsec_nanos};
use crate::byte_buffer_write::{count_wire, ByteBufferWrite};
use crate::byte_order::{
    encode_unsigned, lemma_decode_encode, lemma_encode_len, lemma_radix_values,
    lemma_twos_complement_round_trip, lemma_usize_radix, radix, twos_complement, usize_width,
    ByteOrder,
};
use crate::error::ErrorView;
use core::num::{Saturating, Wrapping};
use core::ops::{Bound, Range, RangeInclusive};
use std::borrow::Cow;
use std::marker::PhantomData;
use std::time::Duration;
use vstd::prelude::*;
use vstd::utf8::encode_utf8;

verus! {

/// The arena `state` after `wire` and then `tail` were written at its cursor, with the
/// cursor back where the write began.
pub open spec fn written(state: BufferView, wire: Seq<u8>, tail: Seq<u8>) -> BufferView {
    state.put(wire + tail).at(state.cursor)
}

/// The arena `state` after `wire` and then `tail` were written at its cursor, with the
/// cursor between the two.
pub open spec fn behind(state: BufferView, wire: Seq<u8>, tail: Seq<u8>) -> BufferView {
    state.put(wire + tail).at(state.cursor + wire.len())
}

/// Whether `value` is read back whatever follows it: a read at the place where `value` and
/// then `tail` were written to the arena `state` finds `value` and leaves the cursor where
/// `tail` begins.
pub open spec fn reads_back<T: ByteBufferWrite + ByteBufferRead>(
    value: T,
    state: BufferView,
    tail: Seq<u8>,
    order: ByteOrder,
) -> bool {
    T::read_spec(written(state, value.wire(order), tail), order) == (
        behind(state, value.wire(order), tail),
        Ok::<T::Model, ErrorView>(value.model()),
    )
}

/// Whether `value` comes back: a read at the place where `value` was written to the arena
/// `state` finds `value` and leaves the arena as the write left it.
pub open spec fn round_trips<T: ByteBufferWrite + ByteBufferRead>(
    value: T,
    state: BufferView,
    order: ByteOrder,
) -> bool {
    T::read_spec(state.put(value.wire(order)).at(state.cursor), order) == (
        state.put(value.wire(order)),
        Ok::<T::Model, ErrorView>(value.model()),
    )
}

/// A value that is read back before an empty tail comes back.
pub proof fn lemma_round_trips<T: ByteBufferWrite + ByteBufferRead>(
    value: T,
    state: BufferView,
    order: ByteOrder,
)
    requires
        reads_back(value, state, Seq::empty(), order),
    ensures
        round_trips(value, state, order),
{
    let wire = value.wire(order);
    assert(wire + Seq::<u8>::empty() =~= wire);
}

/// How the arenas of a write in pieces hang together: reading `head` out of
/// `head + rest + tail` leaves the arena in which `rest + tail` was written behind `head`.
pub proof fn lemma_pieces(state: BufferView, head: Seq<u8>, rest: Seq<u8>, tail: Seq<u8>)
    ensures
        written(state, head + rest, tail) == written(state, head, rest + tail),
        behind(state, head, rest + tail) == written(state.put(head), rest, tail),
        behind(state.put(head), rest, tail) == behind(state, head + rest, tail),
{
    assert((head + rest) + tail =~= head + (rest + tail));
    lemma_put_put(state, head, rest + tail);
}

/// Where `head` and then `tail` were written, the bytes at the place of the write are
/// `head`.
pub proof fn lemma_take_written(state: BufferView, head: Seq<u8>, tail: Seq<u8>)
    ensures
        written(state, head, tail).take(head.len()) == Ok::<Seq<u8>, ErrorView>(head),
        written(state, head, tail).advance(head.len()) == behind(state, head, tail),
{
    let after = written(state, head, tail);
    assert(after.bytes.subrange(after.cursor as int, (after.cursor + head.len()) as int) =~= head);
}

/// An unsigned integer that fits in `width` bytes is read back whatever follows it.
pub proof fn lemma_unsigned_reads_back(
    state: BufferView,
    value: nat,
    width: nat,
    order: ByteOrder,
    tail: Seq<u8>,
)
    requires
        value < radix(width),
    ensures
        encode_unsigned(value, width, order).len() == width,
        read_unsigned_spec(written(state, encode_unsigned(value, width, order), tail), width, order)
            == (
            behind(state, encode_unsigned(value, width, order), tail),
            Ok::<nat, ErrorView>(value),
        ),
{
    let wire = encode_unsigned(value, width, order);
    lemma_encode_len(value, width, order);
    lemma_decode_encode(value, width, order);
    lemma_take_written(state, wire, tail);
}

/// An `u8` is read back in either byte order, whatever follows it.
pub proof fn lemma_u8_reads_back(value: u8, state: BufferView, tail: Seq<u8>, order: ByteOrder)
    ensures
        reads_back(value, state, tail, order),
        round_trips(value, state, order),
{
    lemma_radix_values();
    lemma_unsigned_reads_back(state, value as nat, 1, order, tail);
    lemma_unsigned_reads_back(state, value as nat, 1, order, Seq::empty());
    lemma_round_trips(value, state, order);
}

/// A `u16` is read back in either byte order, whatever follows it.
pub proof fn lemma_u16_reads_back(value: u16, state: BufferView, tail: Seq<u8>, order: ByteOrder)
    ensures
        reads_back(value, state, tail, order),
        round_trips(value, state, order),
{
    lemma_radix_values();
    lemma_unsigned_reads_back(state, value as nat, 2, order, tail);
    lemma_unsigned_reads_back(state, value as nat, 2, order, Seq::empty());
    lemma_round_trips(value, state, order);
}

/// A `u32` is read back in either byte order, whatever follows it.
pub proof fn lemma_u32_reads_back(value: u32, state: BufferView, tail: Seq<u8>, order: ByteOrder)
    ensures
        reads_back(value, state, tail, order),
        round_trips(value, state, order),
{
    lemma_radix_values();
    lemma_unsigned_reads_back(state, value as nat, 4, order, tail);
    lemma_unsigned_reads_back(state, value as nat, 4, order, Seq::empty());
    lemma_round_trips(value, state, order);
}

/// A `u64` is read back in either byte order, whatever follows it.
pub proof fn lemma_u64_reads_back(value: u64, state: BufferView, tail: Seq<u8>, order: ByteOrder)
    ensures
        reads_back(value, state, tail, order),
        round_trips(value, state, order),
{
    lemma_radix_values();
    lemma_unsigned_reads_back(state, value as nat, 8, order, tail);
    lemma_unsigned_reads_back(state, value as nat, 8, order, Seq::empty());
    lemma_round_trips(value, state, order);
}

/// A `u128` is read back in either byte order, whatever follows it.
pub proof fn lemma_u128_reads_back(value: u128, state: BufferView, tail: Seq<u8>, order: ByteOrder)
    ensures
        reads_back(value, state, tail, order),
        round_trips(value, state, order),
{
    lemma_radix_values();
    lemma_unsigned_reads_back(state, value as nat, 16, order, tail);
    lemma_unsigned_reads_back(state, value as nat, 16, order, Seq::empty());
    lemma_round_trips(value, state, order);
}

/// A `usize` is read back in either byte order, whatever follows it.
pub proof fn lemma_usize_reads_back(
    value: usize,
    state: BufferView,
    tail: Seq<u8>,
    order: ByteOrder,
)
    ensures
        reads_back(value, state, tail, order),
        round_trips(value, state, order),
{
    lemma_usize_radix();
    lemma_unsigned_reads_back(state, value as nat, usize_width(), order, tail);
    lemma_unsigned_reads_back(state, value as nat, usize_width(), order, Seq::empty());
    lemma_round_trips(value, state, order);
}

/// An `i8` is read back in either byte order, whatever follows it.
pub proof fn lemma_i8_reads_back(value: i8, state: BufferView, tail: Seq<u8>, order: ByteOrder)
    ensures
        reads_back(value, state, tail, order),
        round_trips(value, state, order),
{
    lemma_radix_values();
    let raw = twos_complement(value as int, 1);
    lemma_twos_complement_round_trip(value as int, 1);
    lemma_unsigned_reads_back(state, raw, 1, order, tail);
    lemma_unsigned_reads_back(state, raw, 1, order, Seq::empty());
    lemma_round_trips(value, state, order);
}

/// An `i16` is read back in either byte order, whatever follows it.
pub proof fn lemma_i16_reads_back(value: i16, state: BufferView, tail: Seq<u8>, order: ByteOrder)
    ensures
        reads_back(value, state, tail, order),
        round_trips(value, state, order),
{
    lemma_radix_values();
    let raw = twos_complement(value as int, 2);
    lemma_twos_complement_round_trip(value as int, 2);
    lemma_unsigned_reads_back(state, raw, 2, order, tail);
    lemma_unsigned_reads_back(state, raw, 2, order, Seq::empty());
    lemma_round_trips(value, state, order);
}

/// An `i32` is read back in either byte order, whatever follows it.
pub proof fn lemma_i32_reads_back(value: i32, state: BufferView, tail: Seq<u8>, order: ByteOrder)
    ensures
        reads_back(value, state, tail, order),
        round_trips(value, state, order),
{
    lemma_radix_values();
    let raw = twos_complement(value as int, 4);
    lemma_twos_complement_round_trip(value as int, 4);
    lemma_unsigned_reads_back(state, raw, 4, order, tail);
    lemma_unsigned_reads_back(state, raw, 4, order, Seq::empty());
    lemma_round_trips(value, state, order);
}

/// An `i64` is read back in either byte order, whatever follows it.
pub proof fn lemma_i64_reads_back(value: i64, state: BufferView, tail: Seq<u8>, order: ByteOrder)
    ensures
        reads_back(value, state, tail, order),
        round_trips(value, state, order),
{
    lemma_radix_values();
    let raw = twos_complement(value as int, 8);
    lemma_twos_complement_round_trip(value as int, 8);
    lemma_unsigned_reads_back(state, raw, 8, order, tail);
    lemma_unsigned_reads_back(state, raw, 8, order, Seq::empty());
    lemma_round_trips(value, state, order);
}

/// An `i128` is read back in either byte order, whatever follows it.
pub proof fn lemma_i128_reads_back(value: i128, state: BufferView, tail: Seq<u8>, order: ByteOrder)
    ensures
        reads_back(value, state, tail, order),
        round_trips(value, state, order),
{
    lemma_radix_values();
    let raw = twos_complement(value as int, 16);
    lemma_twos_complement_round_trip(value as int, 16);
    lemma_unsigned_reads_back(state, raw, 16, order, tail);
    lemma_unsigned_reads_back(state, raw, 16, order, Seq::empty());
    lemma_round_trips(value, state, order);
}

/// An `isize` is read back in either byte order, whatever follows it.
pub proof fn lemma_isize_reads_back(
    value: isize,
    state: BufferView,
    tail: Seq<u8>,
    order: ByteOrder,
)
    ensures
        reads_back(value, state, tail, order),
        round_trips(value, state, order),
{
    lemma_usize_radix();
    let raw = twos_complement(value as int, usize_width());
    lemma_twos_complement_round_trip(value as int, usize_width());
    lemma_unsigned_reads_back(state, raw, usize_width(), order, tail);
    lemma_unsigned_reads_back(state, raw, usize_width(), order, Seq::empty());
    lemma_round_trips(value, state, order);
}

/// A `bool` is read back in either byte order, whatever follows it.
pub proof fn lemma_bool_reads_back(value: bool, state: BufferView, tail: Seq<u8>, order: ByteOrder)
    ensures
        reads_back(value, state, tail, order),
        round_trips(value, state, order),
{
    lemma_radix_values();
    let byte: u8 = if value {
        1
    } else {
        0
    };
    lemma_byte_wire(byte, order);
    lemma_unsigned_reads_back(state, byte as nat, 1, order, tail);
    lemma_unsigned_reads_back(state, byte as nat, 1, order, Seq::empty());
    lemma_round_trips(value, state, order);
}

/// A `char` is read back in either byte order, whatever follows it.
pub proof fn lemma_char_reads_back(value: char, state: BufferView, tail: Seq<u8>, order: ByteOrder)
    ensures
        reads_back(value, state, tail, order),
        round_trips(value, state, order),
{
    lemma_radix_values();
    vstd::utf8::char_is_scalar(value);
    vstd::utf8::char_u32_cast(value, value as u32);
    lemma_unsigned_reads_back(state, value as u32 as nat, 4, order, tail);
    lemma_unsigned_reads_back(state, value as u32 as nat, 4, order, Seq::empty());
    lemma_round_trips(value, state, order);
}

/// The unit value is read back, whatever follows it.
pub proof fn lemma_unit_reads_back(state: BufferView, tail: Seq<u8>, order: ByteOrder)
    ensures
        reads_back((), state, tail, order),
{
}

/// A marker without a value is read back, whatever follows it.
pub proof fn lemma_phantom_reads_back<T>(
    value: PhantomData<T>,
    state: BufferView,
    tail: Seq<u8>,
    order: ByteOrder,
)
    ensures
        reads_back(value, state, tail, order),
{
}

/// The tag byte of a sum type, written before `rest`, is read as itself and leaves the
/// arena in which `rest` was written behind the tag.
pub proof fn lemma_tag_reads_back(
    tag: u8,
    state: BufferView,
    rest: Seq<u8>,
    tail: Seq<u8>,
    order: ByteOrder,
)
    ensures
        u8::read_spec(written(state, seq![tag] + rest, tail), order) == (
            written(state.put(seq![tag]), rest, tail),
            Ok::<u8, ErrorView>(tag),
        ),
        behind(state.put(seq![tag]), rest, tail) == behind(state, seq![tag] + rest, tail),
{
    lemma_byte_wire(tag, order);
    lemma_u8_reads_back(tag, state, rest + tail, order);
    lemma_pieces(state, seq![tag], rest, tail);
}

/// An optional value is read back where the value in it is, written behind the tag.
pub proof fn lemma_option_reads_back<T: ByteBufferWrite + ByteBufferRead>(
    value: Option<T>,
    state: BufferView,
    tail: Seq<u8>,
    order: ByteOrder,
)
    requires
        value matches Some(inner) ==> reads_back(inner, state.put(seq![1u8]), tail, order),
    ensures
        reads_back(value, state, tail, order),
{
    match value {
        Some(inner) => {
            lemma_tag_reads_back(1, state, inner.wire(order), tail, order);
        },
        None => {
            lemma_tag_reads_back(2, state, Seq::empty(), tail, order);
            assert(seq![2u8] + Seq::<u8>::empty() =~= seq![2u8]);
            lemma_pieces(state, seq![2u8], Seq::empty(), tail);
        },
    }
}

/// A success or a failure is read back where the value in it is, written behind the tag.
pub proof fn lemma_result_reads_back<
    T: ByteBufferWrite + ByteBufferRead,
    E: ByteBufferWrite + ByteBufferRead,
>(value: Result<T, E>, state: BufferView, tail: Seq<u8>, order: ByteOrder)
    requires
        value matches Ok(inner) ==> reads_back(inner, state.put(seq![1u8]), tail, order),
        value matches Err(inner) ==> reads_back(inner, state.put(seq![2u8]), tail, order),
    ensures
        reads_back(value, state, tail, order),
{
    match value {
        Ok(inner) => {
            lemma_tag_reads_back(1, state, inner.wire(order), tail, order);
        },
        Err(inner) => {
            lemma_tag_reads_back(2, state, inner.wire(order), tail, order);
        },
    }
}

/// A bound is read back where the value in it is, written behind the tag.
pub proof fn lemma_bound_reads_back<T: ByteBufferWrite + ByteBufferRead>(
    value: Bound<T>,
    state: BufferView,
    tail: Seq<u8>,
    order: ByteOrder,
)
    requires
        value matches Bound::Included(inner) ==> reads_back(
            inner,
            state.put(seq![1u8]),
            tail,
            order,
        ),
        value matches Bound::Excluded(inner) ==> reads_back(
            inner,
            state.put(seq![2u8]),
            tail,
            order,
        ),
    ensures
        reads_back(value, state, tail, order),
{
    match value {
        Bound::Unbounded => {
            lemma_tag_reads_back(0, state, Seq::empty(), tail, order);
            assert(seq![0u8] + Seq::<u8>::empty() =~= seq![0u8]);
            lemma_pieces(state, seq![0u8], Seq::empty(), tail);
        },
        Bound::Included(inner) => {
            lemma_tag_reads_back(1, state, inner.wire(order), tail, order);
        },
        Bound::Excluded(inner) => {
            lemma_tag_reads_back(2, state, inner.wire(order), tail, order);
        },
    }
}

/// A boxed value is read back where the value in the box is.
pub proof fn lemma_box_reads_back<T: ByteBufferWrite + ByteBufferRead>(
    value: Box<T>,
    state: BufferView,
    tail: Seq<u8>,
    order: ByteOrder,
)
    requires
        reads_back(*value, state, tail, order),
    ensures
        reads_back(value, state, tail, order),
{
}

/// A borrowed-or-owned value is read back where the value is.
pub proof fn lemma_cow_reads_back<T: ByteBufferWrite + ByteBufferRead + Clone>(
    value: Cow<'_, T>,
    state: BufferView,
    tail: Seq<u8>,
    order: ByteOrder,
)
    requires
        value matches Cow::Borrowed(inner) ==> reads_back(*inner, state, tail, order),
        value matches Cow::Owned(inner) ==> reads_back(inner, state, tail, order),
    ensures
        reads_back(value, state, tail, order),
{
}

/// A wrapping integer is read back where the integer in it is.
pub proof fn lemma_wrapping_reads_back<T: ByteBufferWrite + ByteBufferRead + Copy>(
    value: Wrapping<T>,
    state: BufferView,
    tail: Seq<u8>,
    order: ByteOrder,
)
    requires
        reads_back(value.0, state, tail, order),
    ensures
        reads_back(value, state, tail, order),
{
}

/// A saturating integer is read back where the integer in it is.
pub proof fn lemma_saturating_reads_back<T: ByteBufferWrite + ByteBufferRead + Copy>(
    value: Saturating<T>,
    state: BufferView,
    tail: Seq<u8>,
    order: ByteOrder,
)
    requires
        reads_back(value.0, state, tail, order),
    ensures
        reads_back(value, state, tail, order),
{
}

/// A range is read back where its start is, before its end, and its end behind its start.
pub proof fn lemma_range_reads_back<T: ByteBufferWrite + ByteBufferRead>(
    value: Range<T>,
    state: BufferView,
    tail: Seq<u8>,
    order: ByteOrder,
)
    requires
        reads_back(value.start, state, value.end.wire(order) + tail, order),
        reads_back(value.end, state.put(value.start.wire(order)), tail, order),
    ensures
        reads_back(value, state, tail, order),
{
    lemma_pieces(state, value.start.wire(order), value.end.wire(order), tail);
}

/// An inclusive range is read back where its start is, before its end, and its end behind
/// its start.
pub proof fn lemma_range_inclusive_reads_back<T: ByteBufferWrite + ByteBufferRead>(
    value: RangeInclusive<T>,
    state: BufferView,
    tail: Seq<u8>,
    order: ByteOrder,
)
    requires
        reads_back(value@.start, state, value@.end.wire(order) + tail, order),
        reads_back(value@.end, state.put(value@.start.wire(order)), tail, order),
    ensures
        reads_back(value, state, tail, order),
{
    lemma_pieces(state, value@.start.wire(order), value@.end.wire(order), tail);
}

/// A duration whose nanoseconds are less than a second is read back, whatever follows it.
pub proof fn lemma_duration_reads_back(
    value: Duration,
    state: BufferView,
    tail: Seq<u8>,
    order: ByteOrder,
)
    requires
        duration_subsec_nanos(value) < NANOS_PER_SEC,
    ensures
        reads_back(value, state, tail, order),
{
    let secs = duration_secs(value);
    let nanos = duration_subsec_nanos(value);
    lemma_u64_reads_back(secs, state, nanos.wire(order) + tail, order);
    lemma_u32_reads_back(nanos, state.put(secs.wire(order)), tail, order);
    lemma_pieces(state, secs.wire(order), nanos.wire(order), tail);
}

/// A text whose UTF-8 form has fewer than 2^64 bytes is read back, whatever follows it.
pub proof fn lemma_string_reads_back(
    value: String,
    state: BufferView,
    tail: Seq<u8>,
    order: ByteOrder,
)
    requires
        encode_utf8(value@).len() <= u64::MAX,
    ensures
        reads_back(value, state, tail, order),
{
    let bytes = encode_utf8(value@);
    let count = count_wire(bytes.len(), order);
    lemma_radix_values();
    lemma_u64_reads_back(bytes.len() as u64, state, bytes + tail, order);
    lemma_pieces(state, count, bytes, tail);
    lemma_take_written(state.put(count), bytes, tail);
    vstd::utf8::encode_utf8_valid_utf8(value@);
    vstd::utf8::encode_utf8_decode_utf8(value@);
}

/// The bytes of a sequence from the item at `at` on are those of that item, then those of
/// the items behind it.
pub proof fn lemma_wire_all_first<T: ByteBufferWrite>(items: Seq<T>, at: int, order: ByteOrder)
    requires
        0 <= at < items.len(),
    ensures
        wire_all(items.skip(at), order) == items[at].wire(order) + wire_all(
            items.skip(at + 1),
            order,
        ),
        wire_all(items.take(at + 1), order) == wire_all(items.take(at), order) + items[at].wire(
            order,
        ),
{
    let one = seq![items[at]];
    assert(one.drop_last() =~= Seq::<T>::empty());
    assert(wire_all(one.drop_last(), order) =~= Seq::<u8>::empty());
    assert(one.last() == items[at]);
    assert(wire_all(one, order) =~= items[at].wire(order));
    assert(items.skip(at) =~= one + items.skip(at + 1));
    lemma_wire_all_concat(one, items.skip(at + 1), order);
    assert(items.take(at + 1).drop_last() =~= items.take(at));
}

/// Whether the item at `i` of a sequence is read back at its place: behind `before` and the
/// items before it, and before the items behind it and `tail`.
pub open spec fn item_reads_back<T: ByteBufferWrite + ByteBufferRead>(
    items: Seq<T>,
    state: BufferView,
    before: Seq<u8>,
    tail: Seq<u8>,
    order: ByteOrder,
    i: int,
) -> bool {
    reads_back(
        items[i],
        state.put(before + wire_all(items.take(i), order)),
        wire_all(items.skip(i + 1), order) + tail,
        order,
    )
}

/// Whether each item of a sequence is read back at its place.
pub open spec fn items_read_back<T: ByteBufferWrite + ByteBufferRead>(
    items: Seq<T>,
    state: BufferView,
    before: Seq<u8>,
    tail: Seq<u8>,
    order: ByteOrder,
) -> bool {
    forall|i: int|
        0 <= i < items.len() ==> #[trigger] item_reads_back(items, state, before, tail, order, i)
}

/// The items of a sequence, each of which is read back at its place, are read back one
/// after the other.
pub proof fn lemma_items_read_back<T: ByteBufferWrite + ByteBufferRead>(
    items: Seq<T>,
    state: BufferView,
    before: Seq<u8>,
    tail: Seq<u8>,
    order: ByteOrder,
    done: int,
    indexed: bool,
)
    requires
        0 <= done <= items.len(),
        items_read_back(items, state, before, tail, order),
    ensures
        read_items_spec::<T>(
            behind(
                state,
                before + wire_all(items.take(done), order),
                wire_all(items.skip(done), order) + tail,
            ),
            order,
            items.len(),
            models(items.take(done)),
            indexed,
        ) == (
            behind(state, before + wire_all(items, order), tail),
            Ok::<Seq<T::Model>, ErrorView>(models(items)),
        ),
    decreases items.len() - done,
{
    let head = before + wire_all(items.take(done), order);
    let left = wire_all(items.skip(done), order) + tail;
    let found = models(items.take(done));
    assert(found.len() == done);
    if done == items.len() {
        assert(items.take(done) =~= items);
        assert(items.skip(done) =~= Seq::<T>::empty());
        assert(left =~= tail);
    } else {
        let item = items[done];
        let piece = item.wire(order);
        let rest = wire_all(items.skip(done + 1), order);
        let next_head = before + wire_all(items.take(done + 1), order);
        let next_found = models(items.take(done + 1));
        lemma_wire_all_first(items, done, order);
        assert(left == piece + (rest + tail)) by {
            assert(left =~= piece + (rest + tail));
        }
        assert(next_head == head + piece) by {
            assert(next_head =~= head + piece);
        }
        assert(next_found == found.push(item.model())) by {
            assert(next_found =~= found.push(item.model()));
        }
        assert(item_reads_back(items, state, before, tail, order, done));
        lemma_pieces(state, head, piece, rest + tail);
        let now = behind(state, head, left);
        let next = behind(state, next_head, rest + tail);
        assert(T::read_spec(now, order) == (next, Ok::<T::Model, ErrorView>(item.model())));
        lemma_items_read_back(items, state, before, tail, order, done + 1, indexed);
        assert(read_items_spec::<T>(now, order, items.len(), found, indexed)
            == read_items_spec::<T>(next, order, items.len(), next_found, indexed));
    }
}

/// A vector is read back where each of its items is read back at its place behind the
/// count.
pub proof fn lemma_vec_reads_back<T: ByteBufferWrite + ByteBufferRead>(
    value: Vec<T>,
    state: BufferView,
    tail: Seq<u8>,
    order: ByteOrder,
)
    requires
        items_read_back(value@, state, count_wire(value@.len(), order), tail, order),
    ensures
        reads_back(value, state, tail, order),
{
    let items = value@;
    let count = count_wire(items.len(), order);
    let body = wire_all(items, order);
    vstd::std_specs::vec::axiom_spec_len(&value);
    lemma_radix_values();
    lemma_u64_reads_back(items.len() as u64, state, body + tail, order);
    lemma_pieces(state, count, body, tail);
    lemma_items_read_back(items, state, count, tail, order, 0, false);
    assert(items.take(0) =~= Seq::<T>::empty());
    assert(items.skip(0) =~= items);
    assert(count + wire_all(items.take(0), order) =~= count);
    assert(models(items.take(0)) =~= Seq::<T::Model>::empty());
}

/// An array with at least one item is read back where each of its items is read back at
/// its place behind the count.
pub proof fn lemma_array_reads_back<T: ByteBufferWrite + ByteBufferRead, const N: usize>(
    value: [T; N],
    state: BufferView,
    tail: Seq<u8>,
    order: ByteOrder,
)
    requires
        N > 0,
        items_read_back(value@, state, count_wire(N as nat, order), tail, order),
    ensures
        reads_back(value, state, tail, order),
{
    let items = value@;
    let count = count_wire(items.len(), order);
    let body = wire_all(items, order);
    lemma_radix_values();
    lemma_u64_reads_back(items.len() as u64, state, body + tail, order);
    lemma_pieces(state, count, body, tail);
    lemma_items_read_back(items, state, count, tail, order, 0, true);
    assert(items.take(0) =~= Seq::<T>::empty());
    assert(items.skip(0) =~= items);
    assert(count + wire_all(items.take(0), order) =~= count);
    assert(models(items.take(0)) =~= Seq::<T::Model>::empty());
}

/// A tuple of one member is read back where the member is.
pub proof fn lemma_tuple1_reads_back<A: ByteBufferWrite + ByteBufferRead>(
    value: (A,),
    state: BufferView,
    tail: Seq<u8>,
    order: ByteOrder,
)
    requires
        reads_back(value.0, state, tail, order),
    ensures
        reads_back(value, state, tail, order),
{
}

/// A tuple of two members is read back where its first one member is, as a tuple and
/// before the last member, and the last member is behind them.
pub proof fn lemma_tuple2_reads_back<
    A: ByteBufferWrite + ByteBufferRead,
    B: ByteBufferWrite + ByteBufferRead,
>(
    value: (A, B),
    state: BufferView,
    tail: Seq<u8>,
    order: ByteOrder,
)
    requires
        reads_back(
            (value.0,),
            state,
            value.1.wire(order) + tail,
            order,
        ),
        reads_back(
            value.1,
            state.put((value.0,).wire(order)),
            tail,
            order,
        ),
    ensures
        reads_back(value, state, tail, order),
{
    let head = (value.0,);
    lemma_pieces(state, head.wire(order), value.1.wire(order), tail);
}

/// A tuple of three members is read back where its first two members are, as a tuple and
/// before the last member, and the last member is behind them.
pub proof fn lemma_tuple3_reads_back<
    A: ByteBufferWrite + ByteBufferRead,
    B: ByteBufferWrite + ByteBufferRead,
    C: ByteBufferWrite + ByteBufferRead,
>(
    value: (A, B, C),
    state: BufferView,
    tail: Seq<u8>,
    order: ByteOrder,
)
    requires
        reads_back(
            (value.0, value.1),
            state,
            value.2.wire(order) + tail,
            order,
        ),
        reads_back(
            value.2,
            state.put((value.0, value.1).wire(order)),
            tail,
            order,
        ),
    ensures
        reads_back(value, state, tail, order),
{
    let head = (value.0, value.1);
    lemma_pieces(state, head.wire(order), value.2.wire(order), tail);
}

/// A tuple of four members is read back where its first three members are, as a tuple and
/// before the last member, and the last member is behind them.
pub proof fn lemma_tuple4_reads_back<
    A: ByteBufferWrite + ByteBufferRead,
    B: ByteBufferWrite + ByteBufferRead,
    C: ByteBufferWrite + ByteBufferRead,
    D: ByteBufferWrite + ByteBufferRead,
>(
    value: (A, B, C, D),
    state: BufferView,
    tail: Seq<u8>,
    order: ByteOrder,
)
    requires
        reads_back(
            (value.0, value.1, value.2),
            state,
            value.3.wire(order) + tail,
            order,
        ),
        reads_back(
            value.3,
            state.put((value.0, value.1, value.2).wire(order)),
            tail,
            order,
        ),
    ensures
        reads_back(value, state, tail, order),
{
    let head = (value.0, value.1, value.2);
    lemma_pieces(state, head.wire(order), value.3.wire(order), tail);
}

/// A tuple of five members is read back where its first four members are, as a tuple and
/// before the last member, and the last member is behind them.
pub proof fn lemma_tuple5_reads_back<
    A: ByteBufferWrite + ByteBufferRead,
    B: ByteBufferWrite + ByteBufferRead,
    C: ByteBufferWrite + ByteBufferRead,
    D: ByteBufferWrite + ByteBufferRead,
    E: ByteBufferWrite + ByteBufferRead,
>(
    value: (A, B, C, D, E),
    state: BufferView,
    tail: Seq<u8>,
    order: ByteOrder,
)
    requires
        reads_back(
            (value.0, value.1, value.2, value.3),
            state,
            value.4.wire(order) + tail,
            order,
        ),
        reads_back(
            value.4,
            state.put((value.0, value.1, value.2, value.3).wire(order)),
            tail,
            order,
        ),
    ensures
        reads_back(value, state, tail, order),
{
    let head = (value.0, value.1, value.2, value.3);
    lemma_pieces(state, head.wire(order), value.4.wire(order), tail);
}

/// A tuple of six members is read back where its first five members are, as a tuple and
/// before the last member, and the last member is behind them.
pub proof fn lemma_tuple6_reads_back<
    A: ByteBufferWrite + ByteBufferRead,
    B: ByteBufferWrite + ByteBufferRead,
    C: ByteBufferWrite + ByteBufferRead,
    D: ByteBufferWrite + ByteBufferRead,
    E: ByteBufferWrite + ByteBufferRead,
    F: ByteBufferWrite + ByteBufferRead,
>(
    value: (A, B, C, D, E, F),
    state: BufferView,
    tail: Seq<u8>,
    order: ByteOrder,
)
    requires
        reads_back(
            (value.0, value.1, value.2, value.3, value.4),
            state,
            value.5.wire(order) + tail,
            order,
        ),
        reads_back(
            value.5,
            state.put((value.0, value.1, value.2, value.3, value.4).wire(order)),
            tail,
            order,
        ),
    ensures
        reads_back(value, state, tail, order),
{
    let head = (value.0, value.1, value.2, value.3, value.4);
    lemma_pieces(state, head.wire(order), value.5.wire(order), tail);
}

/// A tuple of seven members is read back where its first six members are, as a tuple and
/// before the last member, and the last member is behind them.
pub proof fn lemma_tuple7_reads_back<
    A: ByteBufferWrite + ByteBufferRead,
    B: ByteBufferWrite + ByteBufferRead,
    C: ByteBufferWrite + ByteBufferRead,
    D: ByteBufferWrite + ByteBufferRead,
    E: ByteBufferWrite + ByteBufferRead,
    F: ByteBufferWrite + ByteBufferRead,
    G: ByteBufferWrite + ByteBufferRead,
>(
    value: (A, B, C, D, E, F, G),
    state: BufferView,
    tail: Seq<u8>,
    order: ByteOrder,
)
    requires
        reads_back(
            (value.0, value.1, value.2, value.3, value.4, value.5),
            state,
            value.6.wire(order) + tail,
            order,
        ),
        reads_back(
            value.6,
            state.put((value.0, value.1, value.2, value.3, value.4, value.5).wire(order)),
            tail,
            order,
        ),
    ensures
        reads_back(value, state, tail, order),
{
    let head = (value.0, value.1, value.2, value.3, value.4, value.5);
    lemma_pieces(state, head.wire(order), value.6.wire(order), tail);
}

/// A tuple of eight members is read back where its first seven members are, as a tuple and
/// before the last member, and the last member is behind them.
pub proof fn lemma_tuple8_reads_back<
    A: ByteBufferWrite + ByteBufferRead,
    B: ByteBufferWrite + ByteBufferRead,
    C: ByteBufferWrite + ByteBufferRead,
    D: ByteBufferWrite + ByteBufferRead,
    E: ByteBufferWrite + ByteBufferRead,
    F: ByteBufferWrite + ByteBufferRead,
    G: ByteBufferWrite + ByteBufferRead,
    H: ByteBufferWrite + ByteBufferRead,
>(
    value: (A, B, C, D, E, F, G, H),
    state: BufferView,
    tail: Seq<u8>,
    order: ByteOrder,
)
    requires
        reads_back(
            (
                value.0,
                value.1,
                value.2,
                value.3,
                value.4,
                value.5,
                value.6,
            ),
            state,
            value.7.wire(order) + tail,
            order,
        ),
        reads_back(
            value.7,
            state.put((
                value.0,
                value.1,
                value.2,
                value.3,
                value.4,
                value.5,
                value.6,
            ).wire(order)),
            tail,
            order,
        ),
    ensures
        reads_back(value, state, tail, order),
{
    let head = (value.0, value.1, value.2, value.3, value.4, value.5, value.6);
    lemma_pieces(state, head.wire(order), value.7.wire(order), tail);
}

/// A tuple of nine members is read back where its first eight members are, as a tuple and
/// before the last member, and the last member is behind them.
pub proof fn lemma_tuple9_reads_back<
    A: ByteBufferWrite + ByteBufferRead,
    B: ByteBufferWrite + ByteBufferRead,
    C: ByteBufferWrite + ByteBufferRead,
    D: ByteBufferWrite + ByteBufferRead,
    E: ByteBufferWrite + ByteBufferRead,
    F: ByteBufferWrite + ByteBufferRead,
    G: ByteBufferWrite + ByteBufferRead,
    H: ByteBufferWrite + ByteBufferRead,
    I: ByteBufferWrite + ByteBufferRead,
>(
    value: (A, B, C, D, E, F, G, H, I),
    state: BufferView,
    tail: Seq<u8>,
    order: ByteOrder,
)
    requires
        reads_back(
            (
                value.0,
                value.1,
                value.2,
                value.3,
                value.4,
                value.5,
                value.6,
                value.7,
            ),
            state,
            value.8.wire(order) + tail,
            order,
        ),
        reads_back(
            value.8,
            state.put((
                value.0,
                value.1,
                value.2,
                value.3,
                value.4,
                value.5,
                value.6,
                value.7,
            ).wire(order)),
            tail,
            order,
        ),
    ensures
        reads_back(value, state, tail, order),
{
    let head = (
        value.0,
        value.1,
        value.2,
        value.3,
        value.4,
        value.5,
        value.6,
        value.7,
    );
    lemma_pieces(state, head.wire(order), value.8.wire(order), tail);
}

/// A tuple of ten members is read back where its first nine members are, as a tuple and
/// before the last member, and the last member is behind them.
pub proof fn lemma_tuple10_reads_back<
    A: ByteBufferWrite + ByteBufferRead,
    B: ByteBufferWrite + ByteBufferRead,
    C: ByteBufferWrite + ByteBufferRead,
    D: ByteBufferWrite + ByteBufferRead,
    E: ByteBufferWrite + ByteBufferRead,
    F: ByteBufferWrite + ByteBufferRead,
    G: ByteBufferWrite + ByteBufferRead,
    H: ByteBufferWrite + ByteBufferRead,
    I: ByteBufferWrite + ByteBufferRead,
    J: ByteBufferWrite + ByteBufferRead,
>(
    value: (A, B, C, D, E, F, G, H, I, J),
    state: BufferView,
    tail: Seq<u8>,
    order: ByteOrder,
)
    requires
        reads_back(
            (
                value.0,
                value.1,
                value.2,
                value.3,
                value.4,
                value.5,
                value.6,
                value.7,
                value.8,
            ),
            state,
            value.9.wire(order) + tail,
            order,
        ),
        reads_back(
            value.9,
            state.put((
                value.0,
                value.1,
                value.2,
                value.3,
                value.4,
                value.5,
                value.6,
                value.7,
                value.8,
            ).wire(order)),
            tail,
            order,
        ),
    ensures
        reads_back(value, state, tail, order),
{
    let head = (
        value.0,
        value.1,
        value.2,
        value.3,
        value.4,
        value.5,
        value.6,
        value.7,
        value.8,
    );
    lemma_pieces(state, head.wire(order), value.9.wire(order), tail);
}

/// A tuple of eleven members is read back where its first ten members are, as a tuple and
/// before the last member, and the last member is behind them.
pub proof fn lemma_tuple11_reads_back<
    A: ByteBufferWrite + ByteBufferRead,
    B: ByteBufferWrite + ByteBufferRead,
    C: ByteBufferWrite + ByteBufferRead,
    D: ByteBufferWrite + ByteBufferRead,
    E: ByteBufferWrite + ByteBufferRead,
    F: ByteBufferWrite + ByteBufferRead,
    G: ByteBufferWrite + ByteBufferRead,
    H: ByteBufferWrite + ByteBufferRead,
    I: ByteBufferWrite + ByteBufferRead,
    J: ByteBufferWrite + ByteBufferRead,
    K: ByteBufferWrite + ByteBufferRead,
>(
    value: (A, B, C, D, E, F, G, H, I, J, K),
    state: BufferView,
    tail: Seq<u8>,
    order: ByteOrder,
)
    requires
        reads_back(
            (
                value.0,
                value.1,
                value.2,
                value.3,
                value.4,
                value.5,
                value.6,
                value.7,
                value.8,
                value.9,
            ),
            state,
            value.10.wire(order) + tail,
            order,
        ),
        reads_back(
            value.10,
            state.put((
                value.0,
                value.1,
                value.2,
                value.3,
                value.4,
                value.5,
                value.6,
                value.7,
                value.8,
                value.9,
            ).wire(order)),
            tail,
            order,
        ),
    ensures
        reads_back(value, state, tail, order),
{
    let head = (
        value.0,
        value.1,
        value.2,
        value.3,
        value.4,
        value.5,
        value.6,
        value.7,
        value.8,
        value.9,
    );
    lemma_pieces(state, head.wire(order), value.10.wire(order), tail);
}

/// A tuple of twelve members is read back where its first eleven members are, as a tuple and
/// before the last member, and the last member is behind them.
pub proof fn lemma_tuple12_reads_back<
    A: ByteBufferWrite + ByteBufferRead,
    B: ByteBufferWrite + ByteBufferRead,
    C: ByteBufferWrite + ByteBufferRead,
    D: ByteBufferWrite + ByteBufferRead,
    E: ByteBufferWrite + ByteBufferRead,
    F: ByteBufferWrite + ByteBufferRead,
    G: ByteBufferWrite + ByteBufferRead,
    H: ByteBufferWrite + ByteBufferRead,
    I: ByteBufferWrite + ByteBufferRead,
    J: ByteBufferWrite + ByteBufferRead,
    K: ByteBufferWrite + ByteBufferRead,
    L: ByteBufferWrite + ByteBufferRead,
>(
    value: (A, B, C, D, E, F, G, H, I, J, K, L),
    state: BufferView,
    tail: Seq<u8>,
    order: ByteOrder,
)
    requires
        reads_back(
            (
                value.0,
                value.1,
                value.2,
                value.3,
                value.4,
                value.5,
                value.6,
                value.7,
                value.8,
                value.9,
                value.10,
            ),
            state,
            value.11.wire(order) + tail,
            order,
        ),
        reads_back(
            value.11,
            state.put((
                value.0,
                value.1,
                value.2,
                value.3,
                value.4,
                value.5,
                value.6,
                value.7,
                value.8,
                value.9,
                value.10,
            ).wire(order)),
            tail,
            order,
        ),
    ensures
        reads_back(value, state, tail, order),
{
    let head = (
        value.0,
        value.1,
        value.2,
        value.3,
        value.4,
        value.5,
        value.6,
        value.7,
        value.8,
        value.9,
        value.10,
    );
    lemma_pieces(state, head.wire(order), value.11.wire(order), tail);
}

} // verus!
