//! Tuples of one to twelve members: the members in order, with nothing between them. The
//! failure of a member is reported with its position in the tuple.

use crate::byte_buffer::{BufferView, ByteBuffer};
use crate::byte_buffer_read::{moved_on, read_with, ByteBufferRead, ReadSpec};
use crate::byte_order::{ByteOrder, Endian};
use crate::error::{ByteBufferError, ErrorView};
use vstd::prelude::*;

verus! {

/// What the read of the member at `index` of a tuple finds.
pub open spec fn read_member_spec<T: ByteBufferRead>(
    state: BufferView,
    order: ByteOrder,
    index: nat,
) -> ReadSpec<T::Model> {
    match T::read_spec(state, order) {
        (after, Ok(member)) => (after, Ok(member)),
        (after, Err(e)) => (after, Err(e.at_tuple_read(index))),
    }
}

/// Reads the member at `index` of a tuple in the byte order that `endian` names.
pub fn read_member<T: ByteBufferRead>(buffer: &mut ByteBuffer, endian: Endian, index: usize) -> (r:
    Result<T, ByteBufferError>)
    requires
        old(buffer).wf(),
    ensures
        final(buffer).wf(),
        moved_on(old(buffer)@, final(buffer)@),
        read_member_spec::<T>(
            old(buffer)@,
            endian.order_on(old(buffer)@.native),
            index as nat,
        ) == (
            final(buffer)@,
            match r {
                Ok(member) => Ok::<T::Model, ErrorView>(member.model()),
                Err(e) => Err::<T::Model, ErrorView>(e@),
            },
        ),
{
    match read_with::<T>(buffer, endian) {
        Ok(member) => Ok(member),
        Err(e) => Err(e.at_tuple_read(index)),
    }
}

/// Reads a tuple of one member in the byte order that `endian` names.
pub fn read_tuple1<A: ByteBufferRead>(
    buffer: &mut ByteBuffer,
    endian: Endian,
) -> (r: Result<(A,), ByteBufferError>)
    requires
        old(buffer).wf(),
    ensures
        final(buffer).wf(),
        moved_on(old(buffer)@, final(buffer)@),
        <(A,)>::read_spec(
            old(buffer)@,
            endian.order_on(old(buffer)@.native),
        ) == (
            final(buffer)@,
            match r {
                Ok(value) => Ok(value.model()),
                Err(e) => Err(e@),
            },
        ),
{
    let member = read_member::<A>(buffer, endian, 0)?;
    Ok((member,))
}

impl<A: ByteBufferRead> ByteBufferRead for (A,) {
    type Model = (A::Model,);

    open spec fn model(&self) -> Self::Model {
        (self.0.model(),)
    }

    open spec fn read_spec(state: BufferView, order: ByteOrder) -> ReadSpec<
        (A::Model,),
    > {
        match read_member_spec::<A>(state, order, 0) {
            (after, Err(e)) => (after, Err(e)),
            (after, Ok(member)) => (after, Ok((member,))),
        }
    }

    fn read_from_bytey_buffer(buffer: &mut ByteBuffer) -> (r: Result<Self, ByteBufferError>) {
        read_tuple1(buffer, Endian::Native)
    }

    fn read_from_bytey_buffer_le(buffer: &mut ByteBuffer) -> (r: Result<Self, ByteBufferError>) {
        read_tuple1(buffer, Endian::Little)
    }

    fn read_from_bytey_buffer_be(buffer: &mut ByteBuffer) -> (r: Result<Self, ByteBufferError>) {
        read_tuple1(buffer, Endian::Big)
    }
}

/// Reads a tuple of two members in the byte order that `endian` names.
pub fn read_tuple2<A: ByteBufferRead, B: ByteBufferRead>(
    buffer: &mut ByteBuffer,
    endian: Endian,
) -> (r: Result<(A, B), ByteBufferError>)
    requires
        old(buffer).wf(),
    ensures
        final(buffer).wf(),
        moved_on(old(buffer)@, final(buffer)@),
        <(A, B)>::read_spec(
            old(buffer)@,
            endian.order_on(old(buffer)@.native),
        ) == (
            final(buffer)@,
            match r {
                Ok(value) => Ok(value.model()),
                Err(e) => Err(e@),
            },
        ),
{
    let head = read_with::<(A,)>(buffer, endian)?;
    let member = read_member::<B>(buffer, endian, 1)?;
    Ok((head.0, member))
}

impl<A: ByteBufferRead, B: ByteBufferRead> ByteBufferRead for (A, B) {
    type Model = (A::Model, B::Model);

    open spec fn model(&self) -> Self::Model {
        (self.0.model(), self.1.model())
    }

    open spec fn read_spec(state: BufferView, order: ByteOrder) -> ReadSpec<
        (A::Model, B::Model),
    > {
        match <(A,)>::read_spec(state, order) {
            (after, Err(e)) => (after, Err(e)),
            (after, Ok(head)) => match read_member_spec::<B>(after, order, 1) {
                (end, Err(e)) => (end, Err(e)),
                (end, Ok(member)) => (
                    end,
                    Ok((head.0, member)),
                ),
            },
        }
    }

    fn read_from_bytey_buffer(buffer: &mut ByteBuffer) -> (r: Result<Self, ByteBufferError>) {
        read_tuple2(buffer, Endian::Native)
    }

    fn read_from_bytey_buffer_le(buffer: &mut ByteBuffer) -> (r: Result<Self, ByteBufferError>) {
        read_tuple2(buffer, Endian::Little)
    }

    fn read_from_bytey_buffer_be(buffer: &mut ByteBuffer) -> (r: Result<Self, ByteBufferError>) {
        read_tuple2(buffer, Endian::Big)
    }
}

/// Reads a tuple of three members in the byte order that `endian` names.
pub fn read_tuple3<A: ByteBufferRead, B: ByteBufferRead, C: ByteBufferRead>(
    buffer: &mut ByteBuffer,
    endian: Endian,
) -> (r: Result<(A, B, C), ByteBufferError>)
    requires
        old(buffer).wf(),
    ensures
        final(buffer).wf(),
        moved_on(old(buffer)@, final(buffer)@),
        <(A, B, C)>::read_spec(
            old(buffer)@,
            endian.order_on(old(buffer)@.native),
        ) == (
            final(buffer)@,
            match r {
                Ok(value) => Ok(value.model()),
                Err(e) => Err(e@),
            },
        ),
{
    let head = read_with::<(A, B)>(buffer, endian)?;
    let member = read_member::<C>(buffer, endian, 2)?;
    Ok((head.0, head.1, member))
}

impl<A: ByteBufferRead, B: ByteBufferRead, C: ByteBufferRead> ByteBufferRead for (A, B, C) {
    type Model = (A::Model, B::Model, C::Model);

    open spec fn model(&self) -> Self::Model {
        (self.0.model(), self.1.model(), self.2.model())
    }

    open spec fn read_spec(state: BufferView, order: ByteOrder) -> ReadSpec<
        (A::Model, B::Model, C::Model),
    > {
        match <(A, B)>::read_spec(state, order) {
            (after, Err(e)) => (after, Err(e)),
            (after, Ok(head)) => match read_member_spec::<C>(after, order, 2) {
                (end, Err(e)) => (end, Err(e)),
                (end, Ok(member)) => (
                    end,
                    Ok((head.0, head.1, member)),
                ),
            },
        }
    }

    fn read_from_bytey_buffer(buffer: &mut ByteBuffer) -> (r: Result<Self, ByteBufferError>) {
        read_tuple3(buffer, Endian::Native)
    }

    fn read_from_bytey_buffer_le(buffer: &mut ByteBuffer) -> (r: Result<Self, ByteBufferError>) {
        read_tuple3(buffer, Endian::Little)
    }

    fn read_from_bytey_buffer_be(buffer: &mut ByteBuffer) -> (r: Result<Self, ByteBufferError>) {
        read_tuple3(buffer, Endian::Big)
    }
}

/// Reads a tuple of four members in the byte order that `endian` names.
pub fn read_tuple4<A: ByteBufferRead, B: ByteBufferRead, C: ByteBufferRead, D: ByteBufferRead>(
    buffer: &mut ByteBuffer,
    endian: Endian,
) -> (r: Result<(A, B, C, D), ByteBufferError>)
    requires
        old(buffer).wf(),
    ensures
        final(buffer).wf(),
        moved_on(old(buffer)@, final(buffer)@),
        <(A, B, C, D)>::read_spec(
            old(buffer)@,
            endian.order_on(old(buffer)@.native),
        ) == (
            final(buffer)@,
            match r {
                Ok(value) => Ok(value.model()),
                Err(e) => Err(e@),
            },
        ),
{
    let head = read_with::<(A, B, C)>(buffer, endian)?;
    let member = read_member::<D>(buffer, endian, 3)?;
    Ok((head.0, head.1, head.2, member))
}

impl<
    A: ByteBufferRead,
    B: ByteBufferRead,
    C: ByteBufferRead,
    D: ByteBufferRead,
> ByteBufferRead for (A, B, C, D) {
    type Model = (A::Model, B::Model, C::Model, D::Model);

    open spec fn model(&self) -> Self::Model {
        (self.0.model(), self.1.model(), self.2.model(), self.3.model())
    }

    open spec fn read_spec(state: BufferView, order: ByteOrder) -> ReadSpec<
        (A::Model, B::Model, C::Model, D::Model),
    > {
        match <(A, B, C)>::read_spec(state, order) {
            (after, Err(e)) => (after, Err(e)),
            (after, Ok(head)) => match read_member_spec::<D>(after, order, 3) {
                (end, Err(e)) => (end, Err(e)),
                (end, Ok(member)) => (
                    end,
                    Ok((head.0, head.1, head.2, member)),
                ),
            },
        }
    }

    fn read_from_bytey_buffer(buffer: &mut ByteBuffer) -> (r: Result<Self, ByteBufferError>) {
        read_tuple4(buffer, Endian::Native)
    }

    fn read_from_bytey_buffer_le(buffer: &mut ByteBuffer) -> (r: Result<Self, ByteBufferError>) {
        read_tuple4(buffer, Endian::Little)
    }

    fn read_from_bytey_buffer_be(buffer: &mut ByteBuffer) -> (r: Result<Self, ByteBufferError>) {
        read_tuple4(buffer, Endian::Big)
    }
}

/// Reads a tuple of five members in the byte order that `endian` names.
pub fn read_tuple5<
    A: ByteBufferRead,
    B: ByteBufferRead,
    C: ByteBufferRead,
    D: ByteBufferRead,
    E: ByteBufferRead,
>(
    buffer: &mut ByteBuffer,
    endian: Endian,
) -> (r: Result<(A, B, C, D, E), ByteBufferError>)
    requires
        old(buffer).wf(),
    ensures
        final(buffer).wf(),
        moved_on(old(buffer)@, final(buffer)@),
        <(A, B, C, D, E)>::read_spec(
            old(buffer)@,
            endian.order_on(old(buffer)@.native),
        ) == (
            final(buffer)@,
            match r {
                Ok(value) => Ok(value.model()),
                Err(e) => Err(e@),
            },
        ),
{
    let head = read_with::<(A, B, C, D)>(buffer, endian)?;
    let member = read_member::<E>(buffer, endian, 4)?;
    Ok((head.0, head.1, head.2, head.3, member))
}

impl<
    A: ByteBufferRead,
    B: ByteBufferRead,
    C: ByteBufferRead,
    D: ByteBufferRead,
    E: ByteBufferRead,
> ByteBufferRead for (A, B, C, D, E) {
    type Model = (A::Model, B::Model, C::Model, D::Model, E::Model);

    open spec fn model(&self) -> Self::Model {
        (self.0.model(), self.1.model(), self.2.model(), self.3.model(), self.4.model())
    }

    open spec fn read_spec(state: BufferView, order: ByteOrder) -> ReadSpec<
        (A::Model, B::Model, C::Model, D::Model, E::Model),
    > {
        match <(A, B, C, D)>::read_spec(state, order) {
            (after, Err(e)) => (after, Err(e)),
            (after, Ok(head)) => match read_member_spec::<E>(after, order, 4) {
                (end, Err(e)) => (end, Err(e)),
                (end, Ok(member)) => (
                    end,
                    Ok((head.0, head.1, head.2, head.3, member)),
                ),
            },
        }
    }

    fn read_from_bytey_buffer(buffer: &mut ByteBuffer) -> (r: Result<Self, ByteBufferError>) {
        read_tuple5(buffer, Endian::Native)
    }

    fn read_from_bytey_buffer_le(buffer: &mut ByteBuffer) -> (r: Result<Self, ByteBufferError>) {
        read_tuple5(buffer, Endian::Little)
    }

    fn read_from_bytey_buffer_be(buffer: &mut ByteBuffer) -> (r: Result<Self, ByteBufferError>) {
        read_tuple5(buffer, Endian::Big)
    }
}

/// Reads a tuple of six members in the byte order that `endian` names.
pub fn read_tuple6<
    A: ByteBufferRead,
    B: ByteBufferRead,
    C: ByteBufferRead,
    D: ByteBufferRead,
    E: ByteBufferRead,
    F: ByteBufferRead,
>(
    buffer: &mut ByteBuffer,
    endian: Endian,
) -> (r: Result<(A, B, C, D, E, F), ByteBufferError>)
    requires
        old(buffer).wf(),
    ensures
        final(buffer).wf(),
        moved_on(old(buffer)@, final(buffer)@),
        <(A, B, C, D, E, F)>::read_spec(
            old(buffer)@,
            endian.order_on(old(buffer)@.native),
        ) == (
            final(buffer)@,
            match r {
                Ok(value) => Ok(value.model()),
                Err(e) => Err(e@),
            },
        ),
{
    let head = read_with::<(A, B, C, D, E)>(buffer, endian)?;
    let member = read_member::<F>(buffer, endian, 5)?;
    Ok((head.0, head.1, head.2, head.3, head.4, member))
}

impl<
    A: ByteBufferRead,
    B: ByteBufferRead,
    C: ByteBufferRead,
    D: ByteBufferRead,
    E: ByteBufferRead,
    F: ByteBufferRead,
> ByteBufferRead for (A, B, C, D, E, F) {
    type Model = (A::Model, B::Model, C::Model, D::Model, E::Model, F::Model);

    open spec fn model(&self) -> Self::Model {
        (
            self.0.model(),
            self.1.model(),
            self.2.model(),
            self.3.model(),
            self.4.model(),
            self.5.model(),
        )
    }

    open spec fn read_spec(state: BufferView, order: ByteOrder) -> ReadSpec<
        (A::Model, B::Model, C::Model, D::Model, E::Model, F::Model),
    > {
        match <(A, B, C, D, E)>::read_spec(state, order) {
            (after, Err(e)) => (after, Err(e)),
            (after, Ok(head)) => match read_member_spec::<F>(after, order, 5) {
                (end, Err(e)) => (end, Err(e)),
                (end, Ok(member)) => (
                    end,
                    Ok((head.0, head.1, head.2, head.3, head.4, member)),
                ),
            },
        }
    }

    fn read_from_bytey_buffer(buffer: &mut ByteBuffer) -> (r: Result<Self, ByteBufferError>) {
        read_tuple6(buffer, Endian::Native)
    }

    fn read_from_bytey_buffer_le(buffer: &mut ByteBuffer) -> (r: Result<Self, ByteBufferError>) {
        read_tuple6(buffer, Endian::Little)
    }

    fn read_from_bytey_buffer_be(buffer: &mut ByteBuffer) -> (r: Result<Self, ByteBufferError>) {
        read_tuple6(buffer, Endian::Big)
    }
}

/// Reads a tuple of seven members in the byte order that `endian` names.
pub fn read_tuple7<
    A: ByteBufferRead,
    B: ByteBufferRead,
    C: ByteBufferRead,
    D: ByteBufferRead,
    E: ByteBufferRead,
    F: ByteBufferRead,
    G: ByteBufferRead,
>(
    buffer: &mut ByteBuffer,
    endian: Endian,
) -> (r: Result<(A, B, C, D, E, F, G), ByteBufferError>)
    requires
        old(buffer).wf(),
    ensures
        final(buffer).wf(),
        moved_on(old(buffer)@, final(buffer)@),
        <(A, B, C, D, E, F, G)>::read_spec(
            old(buffer)@,
            endian.order_on(old(buffer)@.native),
        ) == (
            final(buffer)@,
            match r {
                Ok(value) => Ok(value.model()),
                Err(e) => Err(e@),
            },
        ),
{
    let head = read_with::<(A, B, C, D, E, F)>(buffer, endian)?;
    let member = read_member::<G>(buffer, endian, 6)?;
    Ok((head.0, head.1, head.2, head.3, head.4, head.5, member))
}

impl<
    A: ByteBufferRead,
    B: ByteBufferRead,
    C: ByteBufferRead,
    D: ByteBufferRead,
    E: ByteBufferRead,
    F: ByteBufferRead,
    G: ByteBufferRead,
> ByteBufferRead for (A, B, C, D, E, F, G) {
    type Model = (A::Model, B::Model, C::Model, D::Model, E::Model, F::Model, G::Model);

    open spec fn model(&self) -> Self::Model {
        (
            self.0.model(),
            self.1.model(),
            self.2.model(),
            self.3.model(),
            self.4.model(),
            self.5.model(),
            self.6.model(),
        )
    }

    open spec fn read_spec(state: BufferView, order: ByteOrder) -> ReadSpec<
        (A::Model, B::Model, C::Model, D::Model, E::Model, F::Model, G::Model),
    > {
        match <(A, B, C, D, E, F)>::read_spec(state, order) {
            (after, Err(e)) => (after, Err(e)),
            (after, Ok(head)) => match read_member_spec::<G>(after, order, 6) {
                (end, Err(e)) => (end, Err(e)),
                (end, Ok(member)) => (
                    end,
                    Ok((head.0, head.1, head.2, head.3, head.4, head.5, member)),
                ),
            },
        }
    }

    fn read_from_bytey_buffer(buffer: &mut ByteBuffer) -> (r: Result<Self, ByteBufferError>) {
        read_tuple7(buffer, Endian::Native)
    }

    fn read_from_bytey_buffer_le(buffer: &mut ByteBuffer) -> (r: Result<Self, ByteBufferError>) {
        read_tuple7(buffer, Endian::Little)
    }

    fn read_from_bytey_buffer_be(buffer: &mut ByteBuffer) -> (r: Result<Self, ByteBufferError>) {
        read_tuple7(buffer, Endian::Big)
    }
}

/// Reads a tuple of eight members in the byte order that `endian` names.
pub fn read_tuple8<
    A: ByteBufferRead,
    B: ByteBufferRead,
    C: ByteBufferRead,
    D: ByteBufferRead,
    E: ByteBufferRead,
    F: ByteBufferRead,
    G: ByteBufferRead,
    H: ByteBufferRead,
>(
    buffer: &mut ByteBuffer,
    endian: Endian,
) -> (r: Result<(A, B, C, D, E, F, G, H), ByteBufferError>)
    requires
        old(buffer).wf(),
    ensures
        final(buffer).wf(),
        moved_on(old(buffer)@, final(buffer)@),
        <(A, B, C, D, E, F, G, H)>::read_spec(
            old(buffer)@,
            endian.order_on(old(buffer)@.native),
        ) == (
            final(buffer)@,
            match r {
                Ok(value) => Ok(value.model()),
                Err(e) => Err(e@),
            },
        ),
{
    let head = read_with::<(A, B, C, D, E, F, G)>(buffer, endian)?;
    let member = read_member::<H>(buffer, endian, 7)?;
    Ok((head.0, head.1, head.2, head.3, head.4, head.5, head.6, member))
}

impl<
    A: ByteBufferRead,
    B: ByteBufferRead,
    C: ByteBufferRead,
    D: ByteBufferRead,
    E: ByteBufferRead,
    F: ByteBufferRead,
    G: ByteBufferRead,
    H: ByteBufferRead,
> ByteBufferRead for (A, B, C, D, E, F, G, H) {
    type Model = (A::Model, B::Model, C::Model, D::Model, E::Model, F::Model, G::Model, H::Model);

    open spec fn model(&self) -> Self::Model {
        (
            self.0.model(),
            self.1.model(),
            self.2.model(),
            self.3.model(),
            self.4.model(),
            self.5.model(),
            self.6.model(),
            self.7.model(),
        )
    }

    open spec fn read_spec(state: BufferView, order: ByteOrder) -> ReadSpec<
        (A::Model, B::Model, C::Model, D::Model, E::Model, F::Model, G::Model, H::Model),
    > {
        match <(A, B, C, D, E, F, G)>::read_spec(state, order) {
            (after, Err(e)) => (after, Err(e)),
            (after, Ok(head)) => match read_member_spec::<H>(after, order, 7) {
                (end, Err(e)) => (end, Err(e)),
                (end, Ok(member)) => (
                    end,
                    Ok((head.0, head.1, head.2, head.3, head.4, head.5, head.6, member)),
                ),
            },
        }
    }

    fn read_from_bytey_buffer(buffer: &mut ByteBuffer) -> (r: Result<Self, ByteBufferError>) {
        read_tuple8(buffer, Endian::Native)
    }

    fn read_from_bytey_buffer_le(buffer: &mut ByteBuffer) -> (r: Result<Self, ByteBufferError>) {
        read_tuple8(buffer, Endian::Little)
    }

    fn read_from_bytey_buffer_be(buffer: &mut ByteBuffer) -> (r: Result<Self, ByteBufferError>) {
        read_tuple8(buffer, Endian::Big)
    }
}

/// Reads a tuple of nine members in the byte order that `endian` names.
pub fn read_tuple9<
    A: ByteBufferRead,
    B: ByteBufferRead,
    C: ByteBufferRead,
    D: ByteBufferRead,
    E: ByteBufferRead,
    F: ByteBufferRead,
    G: ByteBufferRead,
    H: ByteBufferRead,
    I: ByteBufferRead,
>(
    buffer: &mut ByteBuffer,
    endian: Endian,
) -> (r: Result<(A, B, C, D, E, F, G, H, I), ByteBufferError>)
    requires
        old(buffer).wf(),
    ensures
        final(buffer).wf(),
        moved_on(old(buffer)@, final(buffer)@),
        <(A, B, C, D, E, F, G, H, I)>::read_spec(
            old(buffer)@,
            endian.order_on(old(buffer)@.native),
        ) == (
            final(buffer)@,
            match r {
                Ok(value) => Ok(value.model()),
                Err(e) => Err(e@),
            },
        ),
{
    let head = read_with::<(A, B, C, D, E, F, G, H)>(buffer, endian)?;
    let member = read_member::<I>(buffer, endian, 8)?;
    Ok((head.0, head.1, head.2, head.3, head.4, head.5, head.6, head.7, member))
}

impl<
    A: ByteBufferRead,
    B: ByteBufferRead,
    C: ByteBufferRead,
    D: ByteBufferRead,
    E: ByteBufferRead,
    F: ByteBufferRead,
    G: ByteBufferRead,
    H: ByteBufferRead,
    I: ByteBufferRead,
> ByteBufferRead for (A, B, C, D, E, F, G, H, I) {
    type Model = (
        A::Model,
        B::Model,
        C::Model,
        D::Model,
        E::Model,
        F::Model,
        G::Model,
        H::Model,
        I::Model,
    );

    open spec fn model(&self) -> Self::Model {
        (
            self.0.model(),
            self.1.model(),
            self.2.model(),
            self.3.model(),
            self.4.model(),
            self.5.model(),
            self.6.model(),
            self.7.model(),
            self.8.model(),
        )
    }

    open spec fn read_spec(state: BufferView, order: ByteOrder) -> ReadSpec<
        (
            A::Model,
            B::Model,
            C::Model,
            D::Model,
            E::Model,
            F::Model,
            G::Model,
            H::Model,
            I::Model,
        ),
    > {
        match <(A, B, C, D, E, F, G, H)>::read_spec(state, order) {
            (after, Err(e)) => (after, Err(e)),
            (after, Ok(head)) => match read_member_spec::<I>(after, order, 8) {
                (end, Err(e)) => (end, Err(e)),
                (end, Ok(member)) => (
                    end,
                    Ok((head.0, head.1, head.2, head.3, head.4, head.5, head.6, head.7, member)),
                ),
            },
        }
    }

    fn read_from_bytey_buffer(buffer: &mut ByteBuffer) -> (r: Result<Self, ByteBufferError>) {
        read_tuple9(buffer, Endian::Native)
    }

    fn read_from_bytey_buffer_le(buffer: &mut ByteBuffer) -> (r: Result<Self, ByteBufferError>) {
        read_tuple9(buffer, Endian::Little)
    }

    fn read_from_bytey_buffer_be(buffer: &mut ByteBuffer) -> (r: Result<Self, ByteBufferError>) {
        read_tuple9(buffer, Endian::Big)
    }
}

/// Reads a tuple of ten members in the byte order that `endian` names.
pub fn read_tuple10<
    A: ByteBufferRead,
    B: ByteBufferRead,
    C: ByteBufferRead,
    D: ByteBufferRead,
    E: ByteBufferRead,
    F: ByteBufferRead,
    G: ByteBufferRead,
    H: ByteBufferRead,
    I: ByteBufferRead,
    J: ByteBufferRead,
>(
    buffer: &mut ByteBuffer,
    endian: Endian,
) -> (r: Result<(A, B, C, D, E, F, G, H, I, J), ByteBufferError>)
    requires
        old(buffer).wf(),
    ensures
        final(buffer).wf(),
        moved_on(old(buffer)@, final(buffer)@),
        <(A, B, C, D, E, F, G, H, I, J)>::read_spec(
            old(buffer)@,
            endian.order_on(old(buffer)@.native),
        ) == (
            final(buffer)@,
            match r {
                Ok(value) => Ok(value.model()),
                Err(e) => Err(e@),
            },
        ),
{
    let head = read_with::<(A, B, C, D, E, F, G, H, I)>(buffer, endian)?;
    let member = read_member::<J>(buffer, endian, 9)?;
    Ok((head.0, head.1, head.2, head.3, head.4, head.5, head.6, head.7, head.8, member))
}

impl<
    A: ByteBufferRead,
    B: ByteBufferRead,
    C: ByteBufferRead,
    D: ByteBufferRead,
    E: ByteBufferRead,
    F: ByteBufferRead,
    G: ByteBufferRead,
    H: ByteBufferRead,
    I: ByteBufferRead,
    J: ByteBufferRead,
> ByteBufferRead for (A, B, C, D, E, F, G, H, I, J) {
    type Model = (
        A::Model,
        B::Model,
        C::Model,
        D::Model,
        E::Model,
        F::Model,
        G::Model,
        H::Model,
        I::Model,
        J::Model,
    );

    open spec fn model(&self) -> Self::Model {
        (
            self.0.model(),
            self.1.model(),
            self.2.model(),
            self.3.model(),
            self.4.model(),
            self.5.model(),
            self.6.model(),
            self.7.model(),
            self.8.model(),
            self.9.model(),
        )
    }

    open spec fn read_spec(state: BufferView, order: ByteOrder) -> ReadSpec<
        (
            A::Model,
            B::Model,
            C::Model,
            D::Model,
            E::Model,
            F::Model,
            G::Model,
            H::Model,
            I::Model,
            J::Model,
        ),
    > {
        match <(A, B, C, D, E, F, G, H, I)>::read_spec(state, order) {
            (after, Err(e)) => (after, Err(e)),
            (after, Ok(head)) => match read_member_spec::<J>(after, order, 9) {
                (end, Err(e)) => (end, Err(e)),
                (end, Ok(member)) => (
                    end,
                    Ok((
                        head.0,
                        head.1,
                        head.2,
                        head.3,
                        head.4,
                        head.5,
                        head.6,
                        head.7,
                        head.8,
                        member,
                    )),
                ),
            },
        }
    }

    fn read_from_bytey_buffer(buffer: &mut ByteBuffer) -> (r: Result<Self, ByteBufferError>) {
        read_tuple10(buffer, Endian::Native)
    }

    fn read_from_bytey_buffer_le(buffer: &mut ByteBuffer) -> (r: Result<Self, ByteBufferError>) {
        read_tuple10(buffer, Endian::Little)
    }

    fn read_from_bytey_buffer_be(buffer: &mut ByteBuffer) -> (r: Result<Self, ByteBufferError>) {
        read_tuple10(buffer, Endian::Big)
    }
}

/// Reads a tuple of eleven members in the byte order that `endian` names.
pub fn read_tuple11<
    A: ByteBufferRead,
    B: ByteBufferRead,
    C: ByteBufferRead,
    D: ByteBufferRead,
    E: ByteBufferRead,
    F: ByteBufferRead,
    G: ByteBufferRead,
    H: ByteBufferRead,
    I: ByteBufferRead,
    J: ByteBufferRead,
    K: ByteBufferRead,
>(
    buffer: &mut ByteBuffer,
    endian: Endian,
) -> (r: Result<(A, B, C, D, E, F, G, H, I, J, K), ByteBufferError>)
    requires
        old(buffer).wf(),
    ensures
        final(buffer).wf(),
        moved_on(old(buffer)@, final(buffer)@),
        <(A, B, C, D, E, F, G, H, I, J, K)>::read_spec(
            old(buffer)@,
            endian.order_on(old(buffer)@.native),
        ) == (
            final(buffer)@,
            match r {
                Ok(value) => Ok(value.model()),
                Err(e) => Err(e@),
            },
        ),
{
    let head = read_with::<(A, B, C, D, E, F, G, H, I, J)>(buffer, endian)?;
    let member = read_member::<K>(buffer, endian, 10)?;
    Ok((head.0, head.1, head.2, head.3, head.4, head.5, head.6, head.7, head.8, head.9, member))
}

impl<
    A: ByteBufferRead,
    B: ByteBufferRead,
    C: ByteBufferRead,
    D: ByteBufferRead,
    E: ByteBufferRead,
    F: ByteBufferRead,
    G: ByteBufferRead,
    H: ByteBufferRead,
    I: ByteBufferRead,
    J: ByteBufferRead,
    K: ByteBufferRead,
> ByteBufferRead for (A, B, C, D, E, F, G, H, I, J, K) {
    type Model = (
        A::Model,
        B::Model,
        C::Model,
        D::Model,
        E::Model,
        F::Model,
        G::Model,
        H::Model,
        I::Model,
        J::Model,
        K::Model,
    );

    open spec fn model(&self) -> Self::Model {
        (
            self.0.model(),
            self.1.model(),
            self.2.model(),
            self.3.model(),
            self.4.model(),
            self.5.model(),
            self.6.model(),
            self.7.model(),
            self.8.model(),
            self.9.model(),
            self.10.model(),
        )
    }

    open spec fn read_spec(state: BufferView, order: ByteOrder) -> ReadSpec<
        (
            A::Model,
            B::Model,
            C::Model,
            D::Model,
            E::Model,
            F::Model,
            G::Model,
            H::Model,
            I::Model,
            J::Model,
            K::Model,
        ),
    > {
        match <(A, B, C, D, E, F, G, H, I, J)>::read_spec(state, order) {
            (after, Err(e)) => (after, Err(e)),
            (after, Ok(head)) => match read_member_spec::<K>(after, order, 10) {
                (end, Err(e)) => (end, Err(e)),
                (end, Ok(member)) => (
                    end,
                    Ok((
                        head.0,
                        head.1,
                        head.2,
                        head.3,
                        head.4,
                        head.5,
                        head.6,
                        head.7,
                        head.8,
                        head.9,
                        member,
                    )),
                ),
            },
        }
    }

    fn read_from_bytey_buffer(buffer: &mut ByteBuffer) -> (r: Result<Self, ByteBufferError>) {
        read_tuple11(buffer, Endian::Native)
    }

    fn read_from_bytey_buffer_le(buffer: &mut ByteBuffer) -> (r: Result<Self, ByteBufferError>) {
        read_tuple11(buffer, Endian::Little)
    }

    fn read_from_bytey_buffer_be(buffer: &mut ByteBuffer) -> (r: Result<Self, ByteBufferError>) {
        read_tuple11(buffer, Endian::Big)
    }
}

/// Reads a tuple of twelve members in the byte order that `endian` names.
pub fn read_tuple12<
    A: ByteBufferRead,
    B: ByteBufferRead,
    C: ByteBufferRead,
    D: ByteBufferRead,
    E: ByteBufferRead,
    F: ByteBufferRead,
    G: ByteBufferRead,
    H: ByteBufferRead,
    I: ByteBufferRead,
    J: ByteBufferRead,
    K: ByteBufferRead,
    L: ByteBufferRead,
>(
    buffer: &mut ByteBuffer,
    endian: Endian,
) -> (r: Result<(A, B, C, D, E, F, G, H, I, J, K, L), ByteBufferError>)
    requires
        old(buffer).wf(),
    ensures
        final(buffer).wf(),
        moved_on(old(buffer)@, final(buffer)@),
        <(A, B, C, D, E, F, G, H, I, J, K, L)>::read_spec(
            old(buffer)@,
            endian.order_on(old(buffer)@.native),
        ) == (
            final(buffer)@,
            match r {
                Ok(value) => Ok(value.model()),
                Err(e) => Err(e@),
            },
        ),
{
    let head = read_with::<(A, B, C, D, E, F, G, H, I, J, K)>(buffer, endian)?;
    let member = read_member::<L>(buffer, endian, 11)?;
    Ok((
        head.0,
        head.1,
        head.2,
        head.3,
        head.4,
        head.5,
        head.6,
        head.7,
        head.8,
        head.9,
        head.10,
        member,
    ))
}

impl<
    A: ByteBufferRead,
    B: ByteBufferRead,
    C: ByteBufferRead,
    D: ByteBufferRead,
    E: ByteBufferRead,
    F: ByteBufferRead,
    G: ByteBufferRead,
    H: ByteBufferRead,
    I: ByteBufferRead,
    J: ByteBufferRead,
    K: ByteBufferRead,
    L: ByteBufferRead,
> ByteBufferRead for (A, B, C, D, E, F, G, H, I, J, K, L) {
    type Model = (
        A::Model,
        B::Model,
        C::Model,
        D::Model,
        E::Model,
        F::Model,
        G::Model,
        H::Model,
        I::Model,
        J::Model,
        K::Model,
        L::Model,
    );

    open spec fn model(&self) -> Self::Model {
        (
            self.0.model(),
            self.1.model(),
            self.2.model(),
            self.3.model(),
            self.4.model(),
            self.5.model(),
            self.6.model(),
            self.7.model(),
            self.8.model(),
            self.9.model(),
            self.10.model(),
            self.11.model(),
        )
    }

    open spec fn read_spec(state: BufferView, order: ByteOrder) -> ReadSpec<
        (
            A::Model,
            B::Model,
            C::Model,
            D::Model,
            E::Model,
            F::Model,
            G::Model,
            H::Model,
            I::Model,
            J::Model,
            K::Model,
            L::Model,
        ),
    > {
        match <(A, B, C, D, E, F, G, H, I, J, K)>::read_spec(state, order) {
            (after, Err(e)) => (after, Err(e)),
            (after, Ok(head)) => match read_member_spec::<L>(after, order, 11) {
                (end, Err(e)) => (end, Err(e)),
                (end, Ok(member)) => (
                    end,
                    Ok((
                        head.0,
                        head.1,
                        head.2,
                        head.3,
                        head.4,
                        head.5,
                        head.6,
                        head.7,
                        head.8,
                        head.9,
                        head.10,
                        member,
                    )),
                ),
            },
        }
    }

    fn read_from_bytey_buffer(buffer: &mut ByteBuffer) -> (r: Result<Self, ByteBufferError>) {
        read_tuple12(buffer, Endian::Native)
    }

    fn read_from_bytey_buffer_le(buffer: &mut ByteBuffer) -> (r: Result<Self, ByteBufferError>) {
        read_tuple12(buffer, Endian::Little)
    }

    fn read_from_bytey_buffer_be(buffer: &mut ByteBuffer) -> (r: Result<Self, ByteBufferError>) {
        read_tuple12(buffer, Endian::Big)
    }
}

} // verus!
