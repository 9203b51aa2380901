//! The tags of a sum type: its variants are numbered in the order of their declaration,
//! starting at 1, and the number of the variant, a `u16`, is written before its fields.

use crate::byte_buffer::{BufferView, ByteBuffer};
use crate::byte_buffer_read::{moved_on, read_with, ByteBufferRead, ReadSpec};
use crate::byte_order::{ByteOrder, Endian};
use crate::error::{append_decimal, decimal, ByteBufferError, ErrorView};
use vstd::prelude::*;

verus! {

/// The variant that the tag `id` stands for in a sum type of `variants` variants: the one at
/// position `id - 1`. The tag 0 and the tags above `variants` stand for none.
pub open spec fn variant_of(id: u16, variants: u16) -> Option<u16> {
    if 1 <= id <= variants {
        Some((id - 1) as u16)
    } else {
        None
    }
}

/// What a read of a tag that stands for no variant fails with.
pub open spec fn invalid_id(id: u16) -> ErrorView {
    ErrorView::OtherError { message: "Invalid id: "@ + decimal(id as nat) }
}

/// What a read of the tag of a sum type of `variants` variants finds: the position of the
/// variant.
pub open spec fn read_variant_spec(state: BufferView, order: ByteOrder, variants: u16) -> ReadSpec<
    u16,
> {
    match u16::read_spec(state, order) {
        (after, Err(e)) => (after, Err(e)),
        (after, Ok(id)) => match variant_of(id, variants) {
            Some(index) => (after, Ok(index)),
            None => (after, Err(invalid_id(id))),
        },
    }
}

/// The tag of the variant at position `index`: `index + 1`, or `None` for the position
/// 65535, which has no tag.
pub fn variant_id(index: u16) -> (id: Option<u16>)
    ensures
        match id {
            Some(id) => id == index + 1,
            None => index == u16::MAX,
        },
{
    index.checked_add(1)
}

/// The position of the variant that the tag `id` stands for in a sum type of `variants`
/// variants, or `None` where it stands for none.
pub fn variant_index(id: u16, variants: u16) -> (index: Option<u16>)
    ensures
        index == variant_of(id, variants),
{
    if 1 <= id && id <= variants {
        Some(id - 1)
    } else {
        None
    }
}

/// The tag of a variant stands for that variant and no other.
pub proof fn lemma_variant_id_round_trips(index: u16, variants: u16)
    requires
        index < variants,
    ensures
        variant_of((index + 1) as u16, variants) == Some(index),
{
}

/// Reads the tag of a sum type of `variants` variants, in the byte order that `endian`
/// names, and returns the position of the variant.
///
/// Fails as the read of a `u16` does, and with an `OtherError` that names the tag where the
/// tag stands for no variant.
pub fn read_variant(buffer: &mut ByteBuffer, variants: u16, endian: Endian) -> (r: Result<
    u16,
    ByteBufferError,
>)
    requires
        old(buffer).wf(),
    ensures
        final(buffer).wf(),
        moved_on(old(buffer)@, final(buffer)@),
        read_variant_spec(old(buffer)@, endian.order_on(old(buffer)@.native), variants) == (
            final(buffer)@,
            match r {
                Ok(index) => Ok::<u16, ErrorView>(index),
                Err(e) => Err::<u16, ErrorView>(e@),
            },
        ),
{
    let id = read_with::<u16>(buffer, endian)?;
    match variant_index(id, variants) {
        Some(index) => Ok(index),
        None => {
            let mut message = String::from_str("Invalid id: ");
            append_decimal(&mut message, id as u128);
            Err(ByteBufferError::other(message))
        },
    }
}

} // verus!
