//! The arena: a growable run of bytes with a length and a cursor.

use crate::byte_buffer_read::{moved_on, read_outcome, ByteBufferRead};
use crate::byte_buffer_write::{count_wire, framed_write_failed, write_outcome, ByteBufferWrite};
use crate::byte_order::{ByteOrder, Endian};
use crate::error::{ByteBufferError, ErrorView};
use crate::growth::{checked_next_power_of_two, lemma_next_power_of_two, next_power_of_two};
use crate::payload::{framed, read_framed, read_framed_spec, write_framed};
use vstd::prelude::*;

verus! {

/// The largest capacity that an arena can have: `isize::MAX` bytes.
pub open spec fn max_size() -> nat {
    isize::MAX as nat
}

/// `base` with `source` written over it from the position `at` on; where `source` reaches
/// beyond the end of `base`, the result is longer.
pub open spec fn overlay(base: Seq<u8>, at: nat, source: Seq<u8>) -> Seq<u8> {
    Seq::new(
        if at + source.len() > base.len() {
            at + source.len()
        } else {
            base.len()
        },
        |i: int|
            if at <= i < at + source.len() {
                source[i - at]
            } else {
                base[i]
            },
    )
}

/// What an arena is to specifications.
pub struct BufferView {
    /// How many bytes the arena has room for.
    pub capacity: nat,
    /// Where the next read or write starts.
    pub cursor: nat,
    /// The bytes written so far; their number is the arena's length.
    pub bytes: Seq<u8>,
    /// The byte order of the machine on which the arena was made.
    pub native: ByteOrder,
}

impl BufferView {
    /// The number of bytes written so far.
    pub open spec fn length(self) -> nat {
        self.bytes.len()
    }

    /// What holds of every arena: the capacity is between 1 and [`max_size`], the length is
    /// within the capacity and the cursor within the length.
    pub open spec fn inv(self) -> bool {
        &&& 0 < self.capacity <= max_size()
        &&& self.bytes.len() <= self.capacity
        &&& self.cursor <= self.bytes.len()
    }

    /// Whether `n` more bytes can be written at the cursor without growing.
    pub open spec fn fits(self, n: nat) -> bool {
        self.cursor + n <= self.capacity
    }

    /// The arena with the cursor at `cursor`.
    pub open spec fn at(self, cursor: nat) -> BufferView {
        BufferView { cursor, ..self }
    }

    /// The arena with the cursor `n` bytes further.
    pub open spec fn advance(self, n: nat) -> BufferView {
        BufferView { cursor: self.cursor + n, ..self }
    }

    /// The arena after `source` was written at the cursor: the capacity grows to the next
    /// power of two where the bytes do not fit, the cursor stands behind what was written,
    /// and the length reaches at least as far.
    pub open spec fn put(self, source: Seq<u8>) -> BufferView {
        BufferView {
            capacity: if self.fits(source.len()) {
                self.capacity
            } else {
                next_power_of_two(self.cursor + source.len())
            },
            cursor: self.cursor + source.len(),
            bytes: overlay(self.bytes, self.cursor, source),
            native: self.native,
        }
    }

    /// The arena with its capacity set to `capacity`: a length beyond it is cut back to it,
    /// and so is a cursor beyond the new length.
    pub open spec fn resized(self, capacity: nat) -> BufferView {
        let length = if self.bytes.len() > capacity {
            capacity
        } else {
            self.bytes.len()
        };
        BufferView {
            capacity,
            cursor: if self.cursor > length {
                length
            } else {
                self.cursor
            },
            bytes: self.bytes.subrange(0, length as int),
            native: self.native,
        }
    }

    /// The capacity that fits the length: the length, but no less than the capacity of a new
    /// arena, 8.
    pub open spec fn fitting_capacity(self) -> nat {
        if self.bytes.len() > 8 {
            self.bytes.len()
        } else {
            8
        }
    }

    /// The arena with its capacity fitted to its length: set to
    /// [`fitting_capacity`](Self::fitting_capacity) where there is room beyond the length,
    /// and left alone where there is none.
    pub open spec fn fitted(self) -> BufferView {
        if self.capacity > self.bytes.len() {
            self.resized(self.fitting_capacity())
        } else {
            self
        }
    }

    /// The arena cut back to `length` bytes, with a cursor beyond them cut back too.
    pub open spec fn truncated(self, length: nat) -> BufferView {
        BufferView {
            cursor: if self.cursor > length {
                length
            } else {
                self.cursor
            },
            bytes: self.bytes.subrange(0, length as int),
            ..self
        }
    }

    /// What a read of the bytes `start..start + n` fails with.
    pub open spec fn out_of_bounds(self, start: nat, n: nat) -> ErrorView {
        ErrorView::ReadOutOfBounds {
            length: self.bytes.len() as usize,
            start: start as usize,
            end: if start + n > usize::MAX {
                usize::MAX
            } else {
                (start + n) as usize
            },
        }
    }

    /// The `n` bytes at the cursor, or the failure where fewer are left. The `end` that the
    /// failure reports is `cursor + n`, or `usize::MAX` where that is larger.
    pub open spec fn take(self, n: nat) -> Result<Seq<u8>, ErrorView> {
        if self.cursor + n > self.bytes.len() {
            Err(self.out_of_bounds(self.cursor, n))
        } else {
            Ok(self.bytes.subrange(self.cursor as int, (self.cursor + n) as int))
        }
    }
}

/// Two writes, one after the other, leave the arena as one write of both sources does.
pub proof fn lemma_put_put(state: BufferView, first: Seq<u8>, second: Seq<u8>)
    ensures
        state.put(first).put(second) == state.put(first + second),
{
    let once = state.put(first);
    let end = state.cursor + first.len() + second.len();
    assert(once.put(second).bytes =~= state.put(first + second).bytes);
    if state.fits(first.len()) {
    } else {
        lemma_next_power_of_two(state.cursor + first.len());
        if once.fits(second.len()) {
            crate::growth::lemma_next_power_of_two_stable(state.cursor + first.len(), end);
        }
    }
}

/// A write that leaves the capacity within [`max_size`] keeps the arena valid.
pub proof fn lemma_put_inv(state: BufferView, source: Seq<u8>)
    requires
        state.inv(),
        state.put(source).capacity <= max_size(),
    ensures
        state.put(source).inv(),
{
    lemma_next_power_of_two(state.cursor + source.len());
}

/// A change of capacity to a value between 1 and [`max_size`] keeps the arena valid.
pub proof fn lemma_resized_inv(state: BufferView, capacity: nat)
    requires
        state.inv(),
        0 < capacity <= max_size(),
    ensures
        state.resized(capacity).inv(),
{
}

/// A cut to a length within the current one keeps the arena valid.
pub proof fn lemma_truncated_inv(state: BufferView, length: nat)
    requires
        state.inv(),
        length <= state.length(),
    ensures
        state.truncated(length).inv(),
{
}

/// A move of the cursor to a place within the length keeps the arena valid.
pub proof fn lemma_at_inv(state: BufferView, cursor: nat)
    requires
        state.inv(),
        cursor <= state.length(),
    ensures
        state.at(cursor).inv(),
{
}

/// A read of bytes that are there keeps the arena valid.
pub proof fn lemma_advance_inv(state: BufferView, n: nat)
    requires
        state.inv(),
        state.take(n) is Ok,
    ensures
        state.advance(n).inv(),
{
}

/// In a valid arena the cursor is within the length and the length within the capacity.
pub proof fn lemma_inv_orders(state: BufferView)
    requires
        state.inv(),
    ensures
        state.cursor <= state.length() <= state.capacity,
{
}

/// What was written reads back: from the old cursor on, the arena holds the source.
pub proof fn lemma_put_take(state: BufferView, source: Seq<u8>)
    ensures
        state.put(source).at(state.cursor).take(source.len()) == Ok::<Seq<u8>, ErrorView>(source),
        state.put(source).at(state.cursor).advance(source.len()) == state.put(source),
{
    let after = state.put(source).at(state.cursor);
    assert(after.bytes.subrange(after.cursor as int, (after.cursor + source.len()) as int)
        =~= source);
}

/// A growable run of bytes with a length and a cursor.
///
/// Writes go to the cursor and move it on; where they reach beyond the length, the length
/// follows, and where they reach beyond the capacity, the capacity grows to the next power of
/// two. Reads start at the cursor, stay within the length and move the cursor on.
#[derive(Debug)]
pub struct ByteBuffer {
    cap: usize,
    cursor: usize,
    data: Vec<u8>,
    native: ByteOrder,
}

impl View for ByteBuffer {
    type V = BufferView;

    closed spec fn view(&self) -> BufferView {
        BufferView {
            capacity: self.cap as nat,
            cursor: self.cursor as nat,
            bytes: self.data@,
            native: self.native,
        }
    }
}

/// Gives back to the allocator what `data` holds beyond `keep` bytes and beyond its own
/// length: calls `Vec::shrink_to`, which leaves the elements as they are.
#[verifier::external_body]
fn release_spare(data: &mut Vec<u8>, keep: usize)
    ensures
        final(data)@ == old(data)@,
{
    data.shrink_to(keep);
}

impl ByteBuffer {
    /// The largest capacity that an arena can have.
    pub const MAX_SIZE: usize = isize::MAX as usize;

    /// The capacity of an arena made by [`new`](Self::new).
    pub const MIN_SIZE: usize = 8;

    /// Whether the arena is valid; every arena that this module hands out is.
    pub open spec fn wf(&self) -> bool {
        self@.inv()
    }

    /// An empty arena of the given capacity, for a machine of the given byte order.
    fn with_capacity_in(capacity: usize, native: ByteOrder) -> (r: Result<Self, ByteBufferError>)
        ensures
            match r {
                Ok(buffer) => {
                    &&& 0 < capacity <= max_size()
                    &&& buffer.wf()
                    &&& buffer@ == (BufferView {
                        capacity: capacity as nat,
                        cursor: 0,
                        bytes: Seq::empty(),
                        native,
                    })
                },
                Err(e) => if capacity == 0 {
                    e == ByteBufferError::MinCapacity
                } else if capacity > max_size() {
                    e == ByteBufferError::MaxCapacity
                } else {
                    e == (ByteBufferError::AllocationFailure { size: capacity })
                },
            },
    {
        if capacity == 0 {
            return Err(ByteBufferError::MinCapacity);
        } else if capacity > Self::MAX_SIZE {
            return Err(ByteBufferError::MaxCapacity);
        }
        let mut data: Vec<u8> = Vec::new();
        if data.try_reserve(capacity).is_err() {
            return Err(ByteBufferError::AllocationFailure { size: capacity });
        }
        Ok(Self { cap: capacity, cursor: 0, data, native })
    }

    /// An empty arena of capacity [`MIN_SIZE`](Self::MIN_SIZE).
    pub fn new() -> (r: Result<Self, ByteBufferError>)
        ensures
            match r {
                Ok(buffer) => {
                    &&& buffer.wf()
                    &&& buffer@.capacity == 8
                    &&& buffer@.cursor == 0
                    &&& buffer@.bytes == Seq::<u8>::empty()
                },
                Err(e) => e == (ByteBufferError::AllocationFailure { size: 8 }),
            },
    {
        Self::with_capacity(Self::MIN_SIZE)
    }

    /// An empty arena of the given capacity.
    ///
    /// Fails with `MinCapacity` where `capacity` is zero, with `MaxCapacity` where it is
    /// larger than [`MAX_SIZE`](Self::MAX_SIZE), and with `AllocationFailure` where the
    /// allocator refuses.
    pub fn with_capacity(capacity: usize) -> (r: Result<Self, ByteBufferError>)
        ensures
            match r {
                Ok(buffer) => {
                    &&& 0 < capacity <= max_size()
                    &&& buffer.wf()
                    &&& buffer@.capacity == capacity
                    &&& buffer@.cursor == 0
                    &&& buffer@.bytes == Seq::<u8>::empty()
                },
                Err(e) => if capacity == 0 {
                    e == ByteBufferError::MinCapacity
                } else if capacity > max_size() {
                    e == ByteBufferError::MaxCapacity
                } else {
                    e == (ByteBufferError::AllocationFailure { size: capacity })
                },
            },
    {
        Self::with_capacity_in(capacity, ByteOrder::native())
    }

    /// Sets the capacity to `capacity`. A length beyond it is cut back to it, and so is a
    /// cursor beyond the new length.
    ///
    /// Fails, and leaves the arena as it was, with `MinCapacity` where `capacity` is zero,
    /// with `MaxCapacity` where it is larger than [`MAX_SIZE`](Self::MAX_SIZE), and with
    /// `AllocationFailure` where the allocator refuses to grow; shrinking never fails.
    pub fn resize(&mut self, capacity: usize) -> (r: Result<&mut Self, ByteBufferError>)
        requires
            old(self).wf(),
        ensures
            match r {
                Ok(buffer) => {
                    &&& 0 < capacity <= max_size()
                    &&& buffer.wf()
                    &&& buffer@ == old(self)@.resized(capacity as nat)
                    &&& *final(self) == *final(buffer)
                },
                Err(e) => {
                    &&& final(self).wf()
                    &&& final(self)@ == old(self)@
                    &&& if capacity == 0 {
                        e == ByteBufferError::MinCapacity
                    } else if capacity > max_size() {
                        e == ByteBufferError::MaxCapacity
                    } else {
                        &&& capacity > old(self)@.capacity
                        &&& e == (ByteBufferError::AllocationFailure { size: capacity })
                    }
                },
            },
    {
        if capacity == 0 {
            return Err(ByteBufferError::MinCapacity);
        } else if capacity > Self::MAX_SIZE {
            return Err(ByteBufferError::MaxCapacity);
        }
        if capacity > self.cap {
            let missing = capacity - self.data.len();
            if self.data.try_reserve(missing).is_err() {
                return Err(ByteBufferError::AllocationFailure { size: capacity });
            }
            assert(self.data@.subrange(0, self.data@.len() as int) =~= self.data@);
        } else {
            if self.data.len() > capacity {
                self.data.truncate(capacity);
                if self.cursor > capacity {
                    self.cursor = capacity;
                }
            }
            assert(self.data@ =~= old(self).data@.subrange(0, self.data@.len() as int));
            release_spare(&mut self.data, capacity);
        }
        self.cap = capacity;
        Ok(self)
    }

    /// Adds `amount` to the capacity.
    ///
    /// Fails as [`resize`](Self::resize) does; a sum beyond `usize::MAX` is `MaxCapacity`.
    pub fn expand(&mut self, amount: usize) -> (r: Result<&mut Self, ByteBufferError>)
        requires
            old(self).wf(),
        ensures
            match r {
                Ok(buffer) => {
                    &&& old(self)@.capacity + amount <= max_size()
                    &&& buffer.wf()
                    &&& buffer@ == old(self)@.resized(old(self)@.capacity + amount as nat)
                    &&& *final(self) == *final(buffer)
                },
                Err(e) => {
                    &&& final(self).wf()
                    &&& final(self)@ == old(self)@
                    &&& if old(self)@.capacity + amount > max_size() {
                        e == ByteBufferError::MaxCapacity
                    } else {
                        &&& amount > 0
                        &&& e == (ByteBufferError::AllocationFailure {
                            size: (old(self)@.capacity + amount) as usize,
                        })
                    }
                },
            },
    {
        match self.cap.checked_add(amount) {
            Some(capacity) => self.resize(capacity),
            None => Err(ByteBufferError::MaxCapacity),
        }
    }

    /// Lowers the capacity to `min_capacity`, or to the length where that is larger. Does
    /// nothing where the capacity is `min_capacity` or less already.
    ///
    /// Fails with `MinCapacity`, and leaves the arena as it was, where both `min_capacity`
    /// and the length are zero.
    pub fn shrink_to(&mut self, min_capacity: usize) -> (r: Result<&mut Self, ByteBufferError>)
        requires
            old(self).wf(),
        ensures
            match r {
                Ok(buffer) => {
                    &&& buffer.wf()
                    &&& buffer@ == if old(self)@.capacity > min_capacity {
                        old(self)@.resized(
                            if min_capacity > old(self)@.length() {
                                min_capacity as nat
                            } else {
                                old(self)@.length()
                            },
                        )
                    } else {
                        old(self)@
                    }
                    &&& *final(self) == *final(buffer)
                },
                Err(e) => {
                    &&& final(self).wf()
                    &&& final(self)@ == old(self)@
                    &&& e == ByteBufferError::MinCapacity
                },
            },
            r is Err <==> min_capacity == 0 && old(self)@.length() == 0,
    {
        if self.cap > min_capacity {
            let target = if min_capacity > self.data.len() {
                min_capacity
            } else {
                self.data.len()
            };
            self.resize(target)
        } else {
            Ok(self)
        }
    }

    /// Fits the capacity to the length: sets it to the length, but to no less than
    /// [`MIN_SIZE`](Self::MIN_SIZE), where there is room beyond the length, and does nothing
    /// where there is none. An arena of less than `MIN_SIZE` bytes with room beyond its
    /// length so comes to a capacity of `MIN_SIZE`, be that more than it had.
    ///
    /// Fails, and leaves the arena as it was, with `MinCapacity` where the length is zero,
    /// and with `AllocationFailure` where the capacity has to grow to `MIN_SIZE` and the
    /// allocator refuses.
    pub fn shrink_to_fit(&mut self) -> (r: Result<&mut Self, ByteBufferError>)
        requires
            old(self).wf(),
        ensures
            match r {
                Ok(buffer) => {
                    &&& old(self)@.length() > 0
                    &&& buffer.wf()
                    &&& buffer@ == old(self)@.fitted()
                    &&& *final(self) == *final(buffer)
                },
                Err(e) => {
                    &&& final(self).wf()
                    &&& final(self)@ == old(self)@
                    &&& if old(self)@.length() == 0 {
                        e == ByteBufferError::MinCapacity
                    } else {
                        &&& old(self)@.length() < old(self)@.capacity < 8
                        &&& e == (ByteBufferError::AllocationFailure { size: 8 })
                    }
                },
            },
            old(self)@.length() > 0 && old(self)@.fitted().capacity <= old(self)@.capacity ==> r
                is Ok,
    {
        let length = self.data.len();
        if length == 0 {
            Err(ByteBufferError::MinCapacity)
        } else if self.cap > length {
            let target = if length > Self::MIN_SIZE {
                length
            } else {
                Self::MIN_SIZE
            };
            self.resize(target)
        } else {
            Ok(self)
        }
    }

    /// Writes `source` at the cursor, where the caller knows that it fits in the capacity.
    /// The cursor moves behind what was written, and the length follows where the cursor
    /// passes it.
    pub fn write_slice_unchecked(&mut self, source: &[u8]) -> (buffer: &mut Self)
        requires
            old(self).wf(),
            old(self)@.fits(source@.len()),
        ensures
            buffer.wf(),
            buffer@ == old(self)@.put(source@),
            *final(self) == *final(buffer),
    {
        let start = self.cursor;
        let count = source.len();
        let mut done: usize = 0;
        while done < count
            invariant
                done <= count,
                count == source@.len(),
                start + count <= self.cap,
                start <= old(self).data@.len(),
                self.cap == old(self).cap,
                self.cursor == start,
                self.native == old(self).native,
                self.data@ == overlay(old(self).data@, start as nat, source@.take(done as int)),
            decreases count - done,
        {
            let byte = source[done];
            if start + done < self.data.len() {
                self.data.set(start + done, byte);
            } else {
                self.data.push(byte);
            }
            assert(self.data@ =~= overlay(
                old(self).data@,
                start as nat,
                source@.take(done + 1),
            ));
            done = done + 1;
        }
        assert(source@.take(count as int) =~= source@);
        self.cursor = start + count;
        self
    }

    /// Writes `source` at the cursor. Where it does not fit in the capacity, the capacity
    /// first grows to the smallest power of two that holds it.
    ///
    /// Fails, and leaves the arena as it was, with `MaxCapacity` where that power of two is
    /// larger than [`MAX_SIZE`](Self::MAX_SIZE), and with `AllocationFailure` where the
    /// allocator refuses to grow. A write that fits never fails.
    pub fn write_slice(&mut self, source: &[u8]) -> (r: Result<&mut Self, ByteBufferError>)
        requires
            old(self).wf(),
        ensures
            match r {
                Ok(buffer) => {
                    &&& buffer.wf()
                    &&& buffer@ == old(self)@.put(source@)
                    &&& *final(self) == *final(buffer)
                },
                Err(e) => {
                    &&& final(self).wf()
                    &&& final(self)@ == old(self)@
                    &&& !old(self)@.fits(source@.len())
                    &&& if old(self)@.put(source@).capacity > max_size() {
                        e == ByteBufferError::MaxCapacity
                    } else {
                        e == (ByteBufferError::AllocationFailure {
                            size: old(self)@.put(source@).capacity as usize,
                        })
                    }
                },
            },
    {
        proof {
            lemma_next_power_of_two(self@.cursor + source@.len());
        }
        let needed = match self.cursor.checked_add(source.len()) {
            Some(needed) => needed,
            None => {
                return Err(ByteBufferError::MaxCapacity);
            },
        };
        if needed > self.cap {
            let capacity = match checked_next_power_of_two(needed) {
                Some(capacity) => capacity,
                None => {
                    return Err(ByteBufferError::MaxCapacity);
                },
            };
            self.resize(capacity)?;
            assert(self.data@ =~= old(self).data@);
        }
        Ok(self.write_slice_unchecked(source))
    }

    /// Writes `source` at the cursor, numbers in the byte order of the machine.
    ///
    /// Succeeds where the bytes of `source` fit in the capacity; where they do not, the
    /// capacity grows as in [`write_slice`](Self::write_slice), and a failure to grow stops
    /// the write with the bytes before it written.
    pub fn write<T: ByteBufferWrite>(&mut self, source: T) -> (r: Result<
        &mut Self,
        ByteBufferError,
    >)
        requires
            old(self).wf(),
        ensures
            match r {
                Ok(buffer) => {
                    &&& buffer.wf()
                    &&& buffer@ == old(self)@.put(source.wire(old(self)@.native))
                    &&& *final(self) == *final(buffer)
                },
                Err(e) => write_outcome(
                    old(self)@,
                    source.wire(old(self)@.native),
                    false,
                    final(self)@,
                ),
            },
            old(self)@.fits(source.wire(old(self)@.native).len()) ==> r is Ok,
    {
        source.write_to_bytey_buffer(self)?;
        Ok(self)
    }

    /// Writes `source` at the cursor, numbers in little-endian order.
    ///
    /// Succeeds where the bytes of `source` fit in the capacity; where they do not, the
    /// capacity grows as in [`write_slice`](Self::write_slice), and a failure to grow stops
    /// the write with the bytes before it written.
    pub fn write_le<T: ByteBufferWrite>(&mut self, source: T) -> (r: Result<
        &mut Self,
        ByteBufferError,
    >)
        requires
            old(self).wf(),
        ensures
            match r {
                Ok(buffer) => {
                    &&& buffer.wf()
                    &&& buffer@ == old(self)@.put(source.wire(ByteOrder::Little))
                    &&& *final(self) == *final(buffer)
                },
                Err(e) => write_outcome(
                    old(self)@,
                    source.wire(ByteOrder::Little),
                    false,
                    final(self)@,
                ),
            },
            old(self)@.fits(source.wire(ByteOrder::Little).len()) ==> r is Ok,
    {
        source.write_to_bytey_buffer_le(self)?;
        Ok(self)
    }

    /// Writes `source` at the cursor, numbers in big-endian order.
    ///
    /// Succeeds where the bytes of `source` fit in the capacity; where they do not, the
    /// capacity grows as in [`write_slice`](Self::write_slice), and a failure to grow stops
    /// the write with the bytes before it written.
    pub fn write_be<T: ByteBufferWrite>(&mut self, source: T) -> (r: Result<
        &mut Self,
        ByteBufferError,
    >)
        requires
            old(self).wf(),
        ensures
            match r {
                Ok(buffer) => {
                    &&& buffer.wf()
                    &&& buffer@ == old(self)@.put(source.wire(ByteOrder::Big))
                    &&& *final(self) == *final(buffer)
                },
                Err(e) => write_outcome(
                    old(self)@,
                    source.wire(ByteOrder::Big),
                    false,
                    final(self)@,
                ),
            },
            old(self)@.fits(source.wire(ByteOrder::Big).len()) ==> r is Ok,
    {
        source.write_to_bytey_buffer_be(self)?;
        Ok(self)
    }

    /// The `size` bytes at the cursor, where the caller knows that so many are left. The
    /// cursor moves behind them.
    pub fn read_slice_unchecked(&mut self, size: usize) -> (bytes: &[u8])
        requires
            old(self).wf(),
            old(self)@.cursor + size <= old(self)@.length(),
        ensures
            final(self).wf(),
            final(self)@ == old(self)@.advance(size as nat),
            Ok::<Seq<u8>, ErrorView>(bytes@) == old(self)@.take(size as nat),
    {
        let start = self.cursor;
        self.cursor = start + size;
        vstd::slice::slice_subrange(self.data.as_slice(), start, start + size)
    }

    /// The `size` bytes at the cursor; the cursor moves behind them.
    ///
    /// Fails with `ReadOutOfBounds`, and leaves the arena as it was, where fewer than `size`
    /// bytes are left before the length.
    pub fn read_slice(&mut self, size: usize) -> (r: Result<&[u8], ByteBufferError>)
        requires
            old(self).wf(),
        ensures
            final(self).wf(),
            match r {
                Ok(bytes) => {
                    &&& old(self)@.take(size as nat) == Ok::<Seq<u8>, ErrorView>(bytes@)
                    &&& final(self)@ == old(self)@.advance(size as nat)
                },
                Err(e) => {
                    &&& old(self)@.take(size as nat) == Err::<Seq<u8>, ErrorView>(e@)
                    &&& final(self)@ == old(self)@
                },
            },
    {
        if size > self.data.len() - self.cursor {
            return Err(
                ByteBufferError::ReadOutOfBounds {
                    length: self.data.len(),
                    start: self.cursor,
                    end: self.cursor.saturating_add(size),
                },
            );
        }
        Ok(self.read_slice_unchecked(size))
    }

    /// Reads a value of type `T` at the cursor, numbers in the byte order of the machine. The
    /// cursor moves behind what was read; nothing else changes.
    pub fn read<T: ByteBufferRead>(&mut self) -> (r: Result<T, ByteBufferError>)
        requires
            old(self).wf(),
        ensures
            final(self).wf(),
            read_outcome::<T>(old(self)@, old(self)@.native, r, final(self)@),
    {
        T::read_from_bytey_buffer(self)
    }

    /// Reads a value of type `T` at the cursor, numbers in little-endian order. The cursor moves
    /// behind what was read; nothing else changes.
    pub fn read_le<T: ByteBufferRead>(&mut self) -> (r: Result<T, ByteBufferError>)
        requires
            old(self).wf(),
        ensures
            final(self).wf(),
            read_outcome::<T>(old(self)@, ByteOrder::Little, r, final(self)@),
    {
        T::read_from_bytey_buffer_le(self)
    }

    /// Reads a value of type `T` at the cursor, numbers in big-endian order. The cursor moves
    /// behind what was read; nothing else changes.
    pub fn read_be<T: ByteBufferRead>(&mut self) -> (r: Result<T, ByteBufferError>)
        requires
            old(self).wf(),
        ensures
            final(self).wf(),
            read_outcome::<T>(old(self)@, ByteOrder::Big, r, final(self)@),
    {
        T::read_from_bytey_buffer_be(self)
    }

    /// Puts the cursor at `location`, where the caller knows that it is within the length.
    pub fn move_cursor_unchecked(&mut self, location: usize) -> (buffer: &mut Self)
        requires
            old(self).wf(),
            location <= old(self)@.length(),
        ensures
            buffer.wf(),
            buffer@ == old(self)@.at(location as nat),
            *final(self) == *final(buffer),
    {
        self.cursor = location;
        self
    }

    /// Puts the cursor at `location`.
    ///
    /// Fails with `CursorOutOfBounds`, and leaves the arena as it was, where `location` is
    /// beyond the length.
    pub fn move_cursor(&mut self, location: usize) -> (r: Result<&mut Self, ByteBufferError>)
        requires
            old(self).wf(),
        ensures
            match r {
                Ok(buffer) => {
                    &&& location <= old(self)@.length()
                    &&& buffer.wf()
                    &&& buffer@ == old(self)@.at(location as nat)
                    &&& *final(self) == *final(buffer)
                },
                Err(e) => {
                    &&& location > old(self)@.length()
                    &&& final(self).wf()
                    &&& final(self)@ == old(self)@
                    &&& e == (ByteBufferError::CursorOutOfBounds {
                        length: old(self)@.length() as usize,
                        cursor: location,
                    })
                },
            },
    {
        if location > self.data.len() {
            return Err(
                ByteBufferError::CursorOutOfBounds { length: self.data.len(), cursor: location },
            );
        }
        self.cursor = location;
        Ok(self)
    }

    /// Puts the cursor at the length.
    pub fn move_cursor_to_end(&mut self) -> (buffer: &mut Self)
        requires
            old(self).wf(),
        ensures
            buffer.wf(),
            buffer@ == old(self)@.at(old(self)@.length()),
            *final(self) == *final(buffer),
    {
        self.cursor = self.data.len();
        self
    }

    /// Puts the cursor at 0.
    pub fn move_cursor_to_start(&mut self) -> (buffer: &mut Self)
        requires
            old(self).wf(),
        ensures
            buffer.wf(),
            buffer@ == old(self)@.at(0),
            *final(self) == *final(buffer),
    {
        self.cursor = 0;
        self
    }

    /// Cuts the length back to `length`, and a cursor beyond it too. The capacity stays.
    ///
    /// Fails with `LengthOutOfBounds`, and leaves the arena as it was, where `length` is
    /// larger than the current length.
    pub fn truncate(&mut self, length: usize) -> (r: Result<&mut Self, ByteBufferError>)
        requires
            old(self).wf(),
        ensures
            match r {
                Ok(buffer) => {
                    &&& length <= old(self)@.length()
                    &&& buffer.wf()
                    &&& buffer@ == old(self)@.truncated(length as nat)
                    &&& *final(self) == *final(buffer)
                },
                Err(e) => {
                    &&& length > old(self)@.length()
                    &&& final(self).wf()
                    &&& final(self)@ == old(self)@
                    &&& e == (ByteBufferError::LengthOutOfBounds {
                        current: old(self)@.length() as usize,
                        new: length,
                    })
                },
            },
    {
        if length > self.data.len() {
            return Err(
                ByteBufferError::LengthOutOfBounds { current: self.data.len(), new: length },
            );
        }
        self.data.truncate(length);
        if self.cursor > length {
            self.cursor = length;
        }
        Ok(self)
    }

    /// The number of bytes written so far.
    pub fn length(&self) -> (n: usize)
        ensures
            n == self@.length(),
    {
        self.data.len()
    }

    /// The number of bytes that the arena has room for.
    pub fn capacity(&self) -> (n: usize)
        ensures
            n == self@.capacity,
    {
        self.cap
    }

    /// The position at which the next read or write starts.
    pub fn cursor(&self) -> (n: usize)
        ensures
            n == self@.cursor,
    {
        self.cursor
    }

    /// The byte order of the machine on which the arena was made.
    pub fn native_order(&self) -> (order: ByteOrder)
        ensures
            order == self@.native,
    {
        self.native
    }

    /// Whether nothing has been written.
    pub fn is_empty(&self) -> (b: bool)
        ensures
            b == (self@.length() == 0),
    {
        self.length() == 0
    }

    /// A new arena that holds the `len` bytes at the cursor, with its cursor at 0 and a
    /// capacity of `len`. The cursor of `self` moves behind those bytes.
    ///
    /// Fails as [`with_capacity`](Self::with_capacity) does on `len`, then as
    /// [`read_slice`](Self::read_slice) does; `self` stays as it was.
    pub fn read_to_buffer(&mut self, len: usize) -> (r: Result<Self, ByteBufferError>)
        requires
            old(self).wf(),
        ensures
            final(self).wf(),
            match r {
                Ok(buffer) => {
                    &&& 0 < len
                    &&& final(self)@ == old(self)@.advance(len as nat)
                    &&& buffer.wf()
                    &&& old(self)@.take(len as nat) == Ok::<Seq<u8>, ErrorView>(buffer@.bytes)
                    &&& buffer@.capacity == len
                    &&& buffer@.cursor == 0
                    &&& buffer@.native == old(self)@.native
                },
                Err(e) => {
                    &&& final(self)@ == old(self)@
                    &&& if len == 0 {
                        e == ByteBufferError::MinCapacity
                    } else if len > max_size() {
                        e == ByteBufferError::MaxCapacity
                    } else {
                        ||| e == (ByteBufferError::AllocationFailure { size: len })
                        ||| old(self)@.take(len as nat) == Err::<Seq<u8>, ErrorView>(e@)
                    }
                },
            },
            0 < len && old(self)@.cursor + len <= old(self)@.length() ==> r is Ok || r
                == Err::<Self, ByteBufferError>(ByteBufferError::AllocationFailure { size: len }),
    {
        let mut buffer = ByteBuffer::with_capacity_in(len, self.native)?;
        let bytes = self.read_slice(len)?;
        buffer.write_slice_unchecked(bytes);
        assert(buffer.data@ =~= bytes@);
        buffer.cursor = 0;
        Ok(buffer)
    }

    /// All the bytes written so far. The cursor moves to the length.
    pub fn as_slice(&mut self) -> (bytes: &[u8])
        requires
            old(self).wf(),
        ensures
            final(self).wf(),
            final(self)@ == old(self)@.at(old(self)@.length()),
            bytes@ == old(self)@.bytes,
    {
        self.cursor = 0;
        let size = self.data.len();
        assert(self.data@.subrange(0, size as int) =~= self.data@);
        self.read_slice_unchecked(size)
    }

    /// The `size` bytes at the position `cursor`; the arena's cursor moves behind them.
    ///
    /// Fails with `ReadOutOfBounds`, and leaves the arena as it was, where the bytes reach
    /// beyond the length.
    pub fn slice_from(&mut self, cursor: usize, size: usize) -> (r: Result<&[u8], ByteBufferError>)
        requires
            old(self).wf(),
        ensures
            final(self).wf(),
            match r {
                Ok(bytes) => {
                    &&& cursor + size <= old(self)@.length()
                    &&& bytes@ == old(self)@.bytes.subrange(cursor as int, cursor + size)
                    &&& final(self)@ == old(self)@.at((cursor + size) as nat)
                },
                Err(e) => {
                    &&& cursor + size > old(self)@.length()
                    &&& e@ == old(self)@.out_of_bounds(cursor as nat, size as nat)
                    &&& final(self)@ == old(self)@
                },
            },
    {
        if cursor > self.data.len() || size > self.data.len() - cursor {
            return Err(
                ByteBufferError::ReadOutOfBounds {
                    length: self.data.len(),
                    start: cursor,
                    end: cursor.saturating_add(size),
                },
            );
        }
        self.cursor = cursor;
        Ok(self.read_slice_unchecked(size))
    }

    /// Writes a payload that another codec made: its length, a `u64` in the byte order of the
    /// machine, then its bytes as they are.
    ///
    /// Succeeds where length and payload fit in the capacity; where they do not, the
    /// capacity grows as in [`write_slice`](Self::write_slice). A failure to grow for the
    /// length leaves the arena as it was; one for the payload leaves the length written. The
    /// error is that of [`write_slice`](Self::write_slice) on the piece that did not fit.
    pub fn encode(&mut self, payload: &[u8]) -> (r: Result<&mut Self, ByteBufferError>)
        requires
            old(self).wf(),
        ensures
            match r {
                Ok(buffer) => {
                    &&& buffer.wf()
                    &&& buffer@ == old(self)@.put(framed(payload@, old(self)@.native))
                    &&& *final(self) == *final(buffer)
                },
                Err(e) => {
                    &&& write_outcome(
                        old(self)@,
                        framed(payload@, old(self)@.native),
                        false,
                        final(self)@,
                    )
                    &&& framed_write_failed(
                        old(self)@,
                        count_wire(payload@.len(), old(self)@.native),
                        payload@,
                        e,
                        final(self)@,
                    )
                },
            },
            old(self)@.fits(framed(payload@, old(self)@.native).len()) ==> r is Ok,
    {
        write_framed(self, payload, Endian::Native)?;
        Ok(self)
    }

    /// Writes a payload that another codec made: its length, a `u64` in little-endian order, then
    /// its bytes as they are.
    ///
    /// Succeeds where length and payload fit in the capacity; where they do not, the
    /// capacity grows as in [`write_slice`](Self::write_slice). A failure to grow for the
    /// length leaves the arena as it was; one for the payload leaves the length written. The
    /// error is that of [`write_slice`](Self::write_slice) on the piece that did not fit.
    pub fn encode_le(&mut self, payload: &[u8]) -> (r: Result<&mut Self, ByteBufferError>)
        requires
            old(self).wf(),
        ensures
            match r {
                Ok(buffer) => {
                    &&& buffer.wf()
                    &&& buffer@ == old(self)@.put(framed(payload@, ByteOrder::Little))
                    &&& *final(self) == *final(buffer)
                },
                Err(e) => {
                    &&& write_outcome(
                        old(self)@,
                        framed(payload@, ByteOrder::Little),
                        false,
                        final(self)@,
                    )
                    &&& framed_write_failed(
                        old(self)@,
                        count_wire(payload@.len(), ByteOrder::Little),
                        payload@,
                        e,
                        final(self)@,
                    )
                },
            },
            old(self)@.fits(framed(payload@, ByteOrder::Little).len()) ==> r is Ok,
    {
        write_framed(self, payload, Endian::Little)?;
        Ok(self)
    }

    /// Writes a payload that another codec made: its length, a `u64` in big-endian order, then its
    /// bytes as they are.
    ///
    /// Succeeds where length and payload fit in the capacity; where they do not, the
    /// capacity grows as in [`write_slice`](Self::write_slice). A failure to grow for the
    /// length leaves the arena as it was; one for the payload leaves the length written. The
    /// error is that of [`write_slice`](Self::write_slice) on the piece that did not fit.
    pub fn encode_be(&mut self, payload: &[u8]) -> (r: Result<&mut Self, ByteBufferError>)
        requires
            old(self).wf(),
        ensures
            match r {
                Ok(buffer) => {
                    &&& buffer.wf()
                    &&& buffer@ == old(self)@.put(framed(payload@, ByteOrder::Big))
                    &&& *final(self) == *final(buffer)
                },
                Err(e) => {
                    &&& write_outcome(
                        old(self)@,
                        framed(payload@, ByteOrder::Big),
                        false,
                        final(self)@,
                    )
                    &&& framed_write_failed(
                        old(self)@,
                        count_wire(payload@.len(), ByteOrder::Big),
                        payload@,
                        e,
                        final(self)@,
                    )
                },
            },
            old(self)@.fits(framed(payload@, ByteOrder::Big).len()) ==> r is Ok,
    {
        write_framed(self, payload, Endian::Big)?;
        Ok(self)
    }

    /// Reads a payload that another codec made: its length, a `u64` in the byte order of the
    /// machine, then as many bytes. The cursor moves behind what was read; nothing else changes.
    ///
    /// Fails with `ReadOutOfBounds` where the arena ends before the length or before the
    /// payload does.
    pub fn decode(&mut self) -> (r: Result<&[u8], ByteBufferError>)
        requires
            old(self).wf(),
        ensures
            final(self).wf(),
            moved_on(old(self)@, final(self)@),
            read_framed_spec(old(self)@, old(self)@.native) == (
                final(self)@,
                match r {
                    Ok(payload) => Ok::<Seq<u8>, ErrorView>(payload@),
                    Err(e) => Err::<Seq<u8>, ErrorView>(e@),
                },
            ),
    {
        read_framed(self, Endian::Native)
    }

    /// Reads a payload that another codec made: its length, a `u64` in little-endian order, then as
    /// many bytes. The cursor moves behind what was read; nothing else changes.
    ///
    /// Fails with `ReadOutOfBounds` where the arena ends before the length or before the
    /// payload does.
    pub fn decode_le(&mut self) -> (r: Result<&[u8], ByteBufferError>)
        requires
            old(self).wf(),
        ensures
            final(self).wf(),
            moved_on(old(self)@, final(self)@),
            read_framed_spec(old(self)@, ByteOrder::Little) == (
                final(self)@,
                match r {
                    Ok(payload) => Ok::<Seq<u8>, ErrorView>(payload@),
                    Err(e) => Err::<Seq<u8>, ErrorView>(e@),
                },
            ),
    {
        read_framed(self, Endian::Little)
    }

    /// Reads a payload that another codec made: its length, a `u64` in big-endian order, then as
    /// many bytes. The cursor moves behind what was read; nothing else changes.
    ///
    /// Fails with `ReadOutOfBounds` where the arena ends before the length or before the
    /// payload does.
    pub fn decode_be(&mut self) -> (r: Result<&[u8], ByteBufferError>)
        requires
            old(self).wf(),
        ensures
            final(self).wf(),
            moved_on(old(self)@, final(self)@),
            read_framed_spec(old(self)@, ByteOrder::Big) == (
                final(self)@,
                match r {
                    Ok(payload) => Ok::<Seq<u8>, ErrorView>(payload@),
                    Err(e) => Err::<Seq<u8>, ErrorView>(e@),
                },
            ),
    {
        read_framed(self, Endian::Big)
    }
}

impl Clone for ByteBuffer {
    /// An arena of its own with the same bytes, capacity and cursor.
    fn clone(&self) -> (copy: Self)
        ensures
            copy@ == self@,
    {
        let data = self.data.clone();
        assert(data@ =~= self.data@);
        Self { cap: self.cap, cursor: self.cursor, data, native: self.native }
    }
}

} // verus!
