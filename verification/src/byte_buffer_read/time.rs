//! A duration is read as its whole seconds, a `u64`, then nanoseconds, a `u32`. Whole
//! seconds among the nanoseconds are carried over; where the seconds then no longer fit, the
//! read fails.

use crate::byte_buffer::{BufferView, ByteBuffer};
use crate::byte_buffer_read::range::{read_pair, read_pair_spec};
use crate::byte_buffer_read::{moved_on, ByteBufferRead, ReadSpec};
use crate::byte_buffer_write::time::{duration_secs, duration_subsec_nanos};
use crate::byte_order::{ByteOrder, Endian};
use crate::error::{append_decimal, decimal, ByteBufferError, ErrorView};
use std::time::Duration;
use vstd::prelude::*;

verus! {

/// The nanoseconds in a second.
pub const NANOS_PER_SEC: u32 = 1_000_000_000;

/// Calls `Duration::new`, which carries the whole seconds among `nanos` over into the seconds
/// and does not return where the seconds then no longer fit in a `u64`.
#[verifier::external_body]
fn duration_new(secs: u64, nanos: u32) -> (duration: Duration)
    requires
        secs + nanos / NANOS_PER_SEC <= u64::MAX,
    ensures
        duration_secs(duration) == secs + nanos / NANOS_PER_SEC,
        duration_subsec_nanos(duration) == nanos % NANOS_PER_SEC,
{
    Duration::new(secs, nanos)
}

/// What a duration is made of: its whole seconds, and the nanoseconds beyond them.
pub open spec fn duration_parts(secs: u64, nanos: u32) -> Result<(u64, u32), ErrorView> {
    if secs + nanos / NANOS_PER_SEC > u64::MAX {
        Err(
            ErrorView::OtherError {
                message: "Invalid Duration: secs: "@ + decimal(secs as nat) + " nanos: "@ + decimal(
                    nanos as nat,
                ),
            },
        )
    } else {
        Ok(((secs + nanos / NANOS_PER_SEC) as u64, nanos % NANOS_PER_SEC))
    }
}

/// The duration of `secs` seconds and `nanos` nanoseconds. Fails where the whole seconds
/// among `nanos`, added to `secs`, no longer fit in a `u64`.
pub fn new_duration(secs: u64, nanos: u32) -> (r: Result<Duration, ByteBufferError>)
    ensures
        duration_parts(secs, nanos) == match r {
            Ok(duration) => Ok::<(u64, u32), ErrorView>(
                (duration_secs(duration), duration_subsec_nanos(duration)),
            ),
            Err(e) => Err::<(u64, u32), ErrorView>(e@),
        },
{
    let carried: u64 = (nanos / NANOS_PER_SEC) as u64;
    if secs.checked_add(carried).is_none() {
        let mut message = String::from_str("Invalid Duration: secs: ");
        append_decimal(&mut message, secs as u128);
        message.append(" nanos: ");
        append_decimal(&mut message, nanos as u128);
        return Err(ByteBufferError::other(message));
    }
    Ok(duration_new(secs, nanos))
}

/// What a read of a duration finds.
pub open spec fn read_duration_spec(state: BufferView, order: ByteOrder) -> ReadSpec<(u64, u32)> {
    match read_pair_spec::<u64, u32>(state, order) {
        (after, Err(e)) => (after, Err(e)),
        (after, Ok(pair)) => (after, duration_parts(pair.0, pair.1)),
    }
}

/// Reads a duration in the byte order that `endian` names.
pub fn read_duration(buffer: &mut ByteBuffer, endian: Endian) -> (r: Result<
    Duration,
    ByteBufferError,
>)
    requires
        old(buffer).wf(),
    ensures
        final(buffer).wf(),
        moved_on(old(buffer)@, final(buffer)@),
        <Duration>::read_spec(old(buffer)@, endian.order_on(old(buffer)@.native)) == (
            final(buffer)@,
            match r {
                Ok(value) => Ok(value.model()),
                Err(e) => Err(e@),
            },
        ),
{
    let (secs, nanos) = read_pair::<u64, u32>(buffer, endian)?;
    new_duration(secs, nanos)
}

impl ByteBufferRead for Duration {
    type Model = (u64, u32);

    open spec fn model(&self) -> (u64, u32) {
        (duration_secs(*self), duration_subsec_nanos(*self))
    }

    open spec fn read_spec(state: BufferView, order: ByteOrder) -> ReadSpec<(u64, u32)> {
        read_duration_spec(state, order)
    }

    fn read_from_bytey_buffer(buffer: &mut ByteBuffer) -> (r: Result<Self, ByteBufferError>) {
        read_duration(buffer, Endian::Native)
    }

    fn read_from_bytey_buffer_le(buffer: &mut ByteBuffer) -> (r: Result<Self, ByteBufferError>) {
        read_duration(buffer, Endian::Little)
    }

    fn read_from_bytey_buffer_be(buffer: &mut ByteBuffer) -> (r: Result<Self, ByteBufferError>) {
        read_duration(buffer, Endian::Big)
    }
}

} // verus!
