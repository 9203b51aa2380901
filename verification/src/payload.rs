//! Payloads that another codec made: the number of bytes, a `u64`, then the bytes as they are.
//!
//! The arena neither makes nor reads such a payload; it frames it, so that a reader finds
//! where the payload ends.

use crate::byte_buffer::{BufferView, ByteBuffer};
use crate::byte_buffer_read::{moved_on, read_bytes_spec, read_with, ByteBufferRead, ReadSpec};
use crate::byte_buffer_write::{
    count_wire, framed_write_failed, lemma_write_first, lemma_write_step, write_bytes,
    write_count, write_outcome,
};
use crate::byte_order::{ByteOrder, Endian};
use crate::error::{ByteBufferError, ErrorView};
use vstd::prelude::*;

verus! {

/// The bytes of a framed payload: how many bytes it has, then the payload.
pub open spec fn framed(payload: Seq<u8>, order: ByteOrder) -> Seq<u8> {
    count_wire(payload.len(), order) + payload
}

/// What a read of a framed payload finds: the payload, or the failure to read its length or
/// as many bytes as the length says.
pub open spec fn read_framed_spec(state: BufferView, order: ByteOrder) -> ReadSpec<Seq<u8>> {
    match u64::read_spec(state, order) {
        (after, Err(e)) => (after, Err(e)),
        (after, Ok(count)) => read_bytes_spec(after, count as nat),
    }
}

/// Writes the length of `payload` and then `payload`, the length in the byte order that
/// `endian` names.
pub fn write_framed(buffer: &mut ByteBuffer, payload: &[u8], endian: Endian) -> (r: Result<
    (),
    ByteBufferError,
>)
    requires
        old(buffer).wf(),
    ensures
        write_outcome(
            old(buffer)@,
            framed(payload@, endian.order_on(old(buffer)@.native)),
            r is Ok,
            final(buffer)@,
        ),
        r matches Err(e) ==> framed_write_failed(
            old(buffer)@,
            count_wire(payload@.len(), endian.order_on(old(buffer)@.native)),
            payload@,
            e,
            final(buffer)@,
        ),
{
    let ghost start = buffer@;
    let ghost order = endian.order_on(start.native);
    let ghost whole = framed(payload@, order);
    let ghost count = count_wire(payload@.len(), order);
    let counted = write_count(buffer, payload.len(), endian);
    proof {
        lemma_write_first(start, count, payload@, whole, counted is Ok, buffer@);
    }
    if counted.is_err() {
        return counted;
    }
    let ghost current = buffer@;
    let r = write_bytes(buffer, payload);
    proof {
        lemma_write_step(start, current, count, payload@, Seq::empty(), whole, r is Ok, buffer@);
    }
    r
}

/// Reads the length of a payload, in the byte order that `endian` names, and then the
/// payload.
pub fn read_framed(buffer: &mut ByteBuffer, endian: Endian) -> (r: Result<&[u8], ByteBufferError>)
    requires
        old(buffer).wf(),
    ensures
        final(buffer).wf(),
        moved_on(old(buffer)@, final(buffer)@),
        read_framed_spec(old(buffer)@, endian.order_on(old(buffer)@.native)) == (
            final(buffer)@,
            match r {
                Ok(payload) => Ok::<Seq<u8>, ErrorView>(payload@),
                Err(e) => Err::<Seq<u8>, ErrorView>(e@),
            },
        ),
{
    let count = read_with::<u64>(buffer, endian)?;
    let size: usize = if count > usize::MAX as u64 {
        usize::MAX
    } else {
        count as usize
    };
    buffer.read_slice(size)
}

} // verus!
