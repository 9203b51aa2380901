//! A character is read as its code point, a `u32`. A number that is no code point is a
//! failure.

use crate::byte_buffer::{BufferView, ByteBuffer};
use crate::byte_buffer_read::{moved_on, read_with, ByteBufferRead, ReadSpec};
use crate::byte_order::{ByteOrder, Endian};
use crate::error::{ByteBufferError, ErrorView};
use vstd::prelude::*;
use vstd::utf8::is_scalar;

verus! {

/// The character with the code point `code`: calls `char::from_u32`, which returns `None`
/// for the surrogates and for numbers above 0x10FFFF, and the character for every other
/// number.
#[verifier::external_body]
fn char_from_u32(code: u32) -> (r: Option<char>)
    ensures
        match r {
            Some(c) => is_scalar(code) && c == code as char,
            None => !is_scalar(code),
        },
{
    char::from_u32(code)
}

/// Reads a character in the byte order that `endian` names.
pub fn read_char(buffer: &mut ByteBuffer, endian: Endian) -> (r: Result<char, ByteBufferError>)
    requires
        old(buffer).wf(),
    ensures
        final(buffer).wf(),
        moved_on(old(buffer)@, final(buffer)@),
        <char>::read_spec(old(buffer)@, endian.order_on(old(buffer)@.native)) == (
            final(buffer)@,
            match r {
                Ok(value) => Ok(value.model()),
                Err(e) => Err(e@),
            },
        ),
{
    let code = read_with::<u32>(buffer, endian)?;
    match char_from_u32(code) {
        Some(c) => Ok(c),
        None => Err(ByteBufferError::NotAChar),
    }
}

impl ByteBufferRead for char {
    type Model = char;

    open spec fn model(&self) -> char {
        *self
    }

    open spec fn read_spec(state: BufferView, order: ByteOrder) -> ReadSpec<char> {
        match u32::read_spec(state, order) {
            (after, Err(e)) => (after, Err(e)),
            (after, Ok(code)) => if is_scalar(code) {
                (after, Ok(code as char))
            } else {
                (after, Err(ErrorView::NotAChar))
            },
        }
    }

    fn read_from_bytey_buffer(buffer: &mut ByteBuffer) -> (r: Result<Self, ByteBufferError>) {
        read_char(buffer, Endian::Native)
    }

    fn read_from_bytey_buffer_le(buffer: &mut ByteBuffer) -> (r: Result<Self, ByteBufferError>) {
        read_char(buffer, Endian::Little)
    }

    fn read_from_bytey_buffer_be(buffer: &mut ByteBuffer) -> (r: Result<Self, ByteBufferError>) {
        read_char(buffer, Endian::Big)
    }
}

} // verus!
