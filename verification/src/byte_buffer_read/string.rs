//! Text: the number of bytes of its UTF-8 form, a `u64`, then those bytes. Bytes that are
//! not UTF-8 are a failure.

use crate::byte_buffer::{BufferView, ByteBuffer};
use crate::byte_buffer_read::{moved_on, read_bytes_spec, read_with, ByteBufferRead, ReadSpec};
use crate::byte_order::{ByteOrder, Endian};
use crate::error::{ByteBufferError, ErrorView};
use vstd::prelude::*;
use vstd::utf8::{decode_utf8, encode_utf8, valid_utf8};

verus! {

/// The text that `bytes` are the UTF-8 form of: calls `std::str::from_utf8`, which fails on
/// bytes that are not UTF-8 and otherwise hands the same bytes out as text.
#[verifier::external_body]
fn text_from_utf8(bytes: &[u8]) -> (r: Option<&str>)
    ensures
        match r {
            Some(text) => valid_utf8(bytes@) && encode_utf8(text@) == bytes@,
            None => !valid_utf8(bytes@),
        },
{
    std::str::from_utf8(bytes).ok()
}

/// What a read of a text finds.
pub open spec fn read_text_spec(state: BufferView, order: ByteOrder) -> ReadSpec<Seq<char>> {
    match u64::read_spec(state, order) {
        (after, Err(e)) => (after, Err(e)),
        (after, Ok(count)) => match read_bytes_spec(after, count as nat) {
            (end, Err(e)) => (end, Err(e)),
            (end, Ok(bytes)) => if valid_utf8(bytes) {
                (end, Ok(decode_utf8(bytes)))
            } else {
                (end, Err(ErrorView::InvalidUnicode))
            },
        },
    }
}

/// Reads a text in the byte order that `endian` names.
pub fn read_string(buffer: &mut ByteBuffer, endian: Endian) -> (r: Result<String, ByteBufferError>)
    requires
        old(buffer).wf(),
    ensures
        final(buffer).wf(),
        moved_on(old(buffer)@, final(buffer)@),
        <String>::read_spec(old(buffer)@, endian.order_on(old(buffer)@.native)) == (
            final(buffer)@,
            match r {
                Ok(value) => Ok(value.model()),
                Err(e) => Err(e@),
            },
        ),
{
    let count = read_with::<u64>(buffer, endian)?;
    let size: usize = if count > usize::MAX as u64 {
        usize::MAX
    } else {
        count as usize
    };
    let bytes = buffer.read_slice(size)?;
    match text_from_utf8(bytes) {
        Some(text) => {
            proof {
                vstd::utf8::encode_utf8_decode_utf8(text@);
            }
            Ok(text.to_owned())
        },
        None => Err(ByteBufferError::InvalidUnicode),
    }
}

impl ByteBufferRead for String {
    type Model = Seq<char>;

    open spec fn model(&self) -> Seq<char> {
        self@
    }

    open spec fn read_spec(state: BufferView, order: ByteOrder) -> ReadSpec<Seq<char>> {
        read_text_spec(state, order)
    }

    fn read_from_bytey_buffer(buffer: &mut ByteBuffer) -> (r: Result<Self, ByteBufferError>) {
        read_string(buffer, Endian::Native)
    }

    fn read_from_bytey_buffer_le(buffer: &mut ByteBuffer) -> (r: Result<Self, ByteBufferError>) {
        read_string(buffer, Endian::Little)
    }

    fn read_from_bytey_buffer_be(buffer: &mut ByteBuffer) -> (r: Result<Self, ByteBufferError>) {
        read_string(buffer, Endian::Big)
    }
}

} // verus!
