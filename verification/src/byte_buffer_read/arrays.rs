//! Arrays and vectors: the number of items, a `u64`, then the items in order.
//!
//! A vector takes as many items as the number says. An array of `N` items takes a number of
//! `N` and nothing else, and reports the failure of an item with the item's index.

use crate::byte_buffer::{BufferView, ByteBuffer};
use crate::byte_buffer_read::{moved_on, read_with, ByteBufferRead, ReadSpec};
use crate::byte_order::{ByteOrder, Endian};
use crate::error::{append_decimal, decimal, ByteBufferError, ErrorView};
use vstd::prelude::*;

verus! {

/// The items of a sequence as specifications see them.
pub open spec fn models<T: ByteBufferRead>(items: Seq<T>) -> Seq<T::Model> {
    items.map_values(|item: T| item.model())
}

/// What a read of `count` items finds, where `found` are the items read so far. With
/// `indexed`, the failure of an item is reported with the item's index.
pub open spec fn read_items_spec<T: ByteBufferRead>(
    state: BufferView,
    order: ByteOrder,
    count: nat,
    found: Seq<T::Model>,
    indexed: bool,
) -> ReadSpec<Seq<T::Model>>
    decreases
            (if count > found.len() {
                count - found.len()
            } else {
                0
            }),
{
    if found.len() >= count {
        (state, Ok(found))
    } else {
        match T::read_spec(state, order) {
            (after, Ok(item)) => read_items_spec::<T>(
                after,
                order,
                count,
                found.push(item),
                indexed,
            ),
            (after, Err(e)) => (
                after,
                Err(
                    if indexed {
                        e.at_array_item(found.len())
                    } else {
                        e
                    },
                ),
            ),
        }
    }
}

/// Reads `count` items in the byte order that `endian` names. With `indexed`, the failure of
/// an item is reported with the item's index.
pub fn read_items<T: ByteBufferRead>(
    buffer: &mut ByteBuffer,
    endian: Endian,
    count: u64,
    indexed: bool,
) -> (r: Result<Vec<T>, ByteBufferError>)
    requires
        old(buffer).wf(),
    ensures
        final(buffer).wf(),
        moved_on(old(buffer)@, final(buffer)@),
        read_items_spec::<T>(
            old(buffer)@,
            endian.order_on(old(buffer)@.native),
            count as nat,
            Seq::empty(),
            indexed,
        ) == (
            final(buffer)@,
            match r {
                Ok(items) => Ok::<Seq<T::Model>, ErrorView>(models(items@)),
                Err(e) => Err::<Seq<T::Model>, ErrorView>(e@),
            },
        ),
        r matches Ok(items) ==> items@.len() == count,
{
    let ghost start = buffer@;
    let ghost order = endian.order_on(start.native);
    let mut items: Vec<T> = Vec::new();
    let mut done: u64 = 0;
    proof {
        assert(models(items@) =~= Seq::<T::Model>::empty());
    }
    while done < count
        invariant
            start == old(buffer)@,
            start.inv(),
            buffer.wf(),
            moved_on(start, buffer@),
            order == endian.order_on(start.native),
            done == items@.len(),
            done <= count,
            read_items_spec::<T>(buffer@, order, count as nat, models(items@), indexed)
                == read_items_spec::<T>(start, order, count as nat, Seq::empty(), indexed),
        decreases count - done,
    {
        let ghost before = items@;
        match read_with::<T>(buffer, endian) {
            Ok(item) => {
                let ghost model = item.model();
                items.push(item);
                proof {
                    assert(models(items@) =~= models(before).push(model));
                }
                done = done + 1;
            },
            Err(e) => {
                if indexed {
                    return Err(e.at_array_item(items.len()));
                } else {
                    return Err(e);
                }
            },
        }
    }
    Ok(items)
}

/// What a read of a vector finds.
pub open spec fn read_vec_spec<T: ByteBufferRead>(state: BufferView, order: ByteOrder) -> ReadSpec<
    Seq<T::Model>,
> {
    match u64::read_spec(state, order) {
        (after, Err(e)) => (after, Err(e)),
        (after, Ok(count)) => read_items_spec::<T>(after, order, count as nat, Seq::empty(), false),
    }
}

/// Reads a vector in the byte order that `endian` names.
pub fn read_vec<T: ByteBufferRead>(buffer: &mut ByteBuffer, endian: Endian) -> (r: Result<
    Vec<T>,
    ByteBufferError,
>)
    requires
        old(buffer).wf(),
    ensures
        final(buffer).wf(),
        moved_on(old(buffer)@, final(buffer)@),
        <Vec<T>>::read_spec(old(buffer)@, endian.order_on(old(buffer)@.native)) == (
            final(buffer)@,
            match r {
                Ok(value) => Ok(value.model()),
                Err(e) => Err(e@),
            },
        ),
{
    let count = read_with::<u64>(buffer, endian)?;
    read_items::<T>(buffer, endian, count, false)
}

impl<T: ByteBufferRead> ByteBufferRead for Vec<T> {
    type Model = Seq<T::Model>;

    open spec fn model(&self) -> Seq<T::Model> {
        models(self@)
    }

    open spec fn read_spec(state: BufferView, order: ByteOrder) -> ReadSpec<Seq<T::Model>> {
        read_vec_spec::<T>(state, order)
    }

    fn read_from_bytey_buffer(buffer: &mut ByteBuffer) -> (r: Result<Self, ByteBufferError>) {
        read_vec(buffer, Endian::Native)
    }

    fn read_from_bytey_buffer_le(buffer: &mut ByteBuffer) -> (r: Result<Self, ByteBufferError>) {
        read_vec(buffer, Endian::Little)
    }

    fn read_from_bytey_buffer_be(buffer: &mut ByteBuffer) -> (r: Result<Self, ByteBufferError>) {
        read_vec(buffer, Endian::Big)
    }
}

/// What the read of an array says where the number of items on the wire is not the array's.
pub open spec fn size_mismatch(expected: nat, found: nat) -> ErrorView {
    ErrorView::OtherError {
        message: "Invalid size in buffer for [T; "@ + decimal(expected) + "]. Should be [T; "@
            + decimal(found) + "]?"@,
    }
}

/// What the read of an array without items says.
pub open spec fn no_size() -> ErrorView {
    ErrorView::OtherError { message: "Can not read to an [T;0]. The array must have a size."@ }
}

/// What a read of an array of `size` items finds.
pub open spec fn read_array_spec<T: ByteBufferRead>(
    state: BufferView,
    order: ByteOrder,
    size: nat,
) -> ReadSpec<Seq<T::Model>> {
    if size == 0 {
        (state, Err(no_size()))
    } else {
        match u64::read_spec(state, order) {
            (after, Err(e)) => (after, Err(e)),
            (after, Ok(count)) => if count != size {
                (after, Err(size_mismatch(size, count as nat)))
            } else {
                read_items_spec::<T>(after, order, size, Seq::empty(), true)
            },
        }
    }
}

/// Turns a vector into an array: calls `<[T; N]>::try_from`, which keeps the items in their
/// order where there are `N` of them and fails on every other number.
#[verifier::external_body]
fn into_array<T, const N: usize>(items: Vec<T>) -> (r: Option<[T; N]>)
    ensures
        match r {
            Some(array) => items@.len() == N && array@ == items@,
            None => items@.len() != N,
        },
{
    <[T; N]>::try_from(items).ok()
}

/// Reads an array in the byte order that `endian` names.
pub fn read_array<T: ByteBufferRead, const N: usize>(buffer: &mut ByteBuffer, endian: Endian) -> (r:
    Result<[T; N], ByteBufferError>)
    requires
        old(buffer).wf(),
    ensures
        final(buffer).wf(),
        moved_on(old(buffer)@, final(buffer)@),
        <[T; N]>::read_spec(old(buffer)@, endian.order_on(old(buffer)@.native)) == (
            final(buffer)@,
            match r {
                Ok(value) => Ok(value.model()),
                Err(e) => Err(e@),
            },
        ),
{
    if N == 0 {
        return Err(
            ByteBufferError::other_str("Can not read to an [T;0]. The array must have a size."),
        );
    }
    let count = read_with::<u64>(buffer, endian)?;
    if count != N as u64 {
        let mut message = String::from_str("Invalid size in buffer for [T; ");
        append_decimal(&mut message, N as u128);
        message.append("]. Should be [T; ");
        append_decimal(&mut message, count as u128);
        message.append("]?");
        return Err(ByteBufferError::other(message));
    }
    let items = read_items::<T>(buffer, endian, count, true)?;
    match into_array::<T, N>(items) {
        Some(array) => Ok(array),
        None => Err(ByteBufferError::other_str("Not all of the array was initialized")),
    }
}

impl<T: ByteBufferRead, const N: usize> ByteBufferRead for [T; N] {
    type Model = Seq<T::Model>;

    open spec fn model(&self) -> Seq<T::Model> {
        models(self@)
    }

    open spec fn read_spec(state: BufferView, order: ByteOrder) -> ReadSpec<Seq<T::Model>> {
        read_array_spec::<T>(state, order, N as nat)
    }

    fn read_from_bytey_buffer(buffer: &mut ByteBuffer) -> (r: Result<Self, ByteBufferError>) {
        read_array(buffer, Endian::Native)
    }

    fn read_from_bytey_buffer_le(buffer: &mut ByteBuffer) -> (r: Result<Self, ByteBufferError>) {
        read_array(buffer, Endian::Little)
    }

    fn read_from_bytey_buffer_be(buffer: &mut ByteBuffer) -> (r: Result<Self, ByteBufferError>) {
        read_array(buffer, Endian::Big)
    }
}

} // verus!
