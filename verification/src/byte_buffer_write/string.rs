//! Text: the number of bytes of its UTF-8 form, a `u64`, then those bytes.

use crate::byte_buffer::ByteBuffer;
use crate::byte_buffer_write::{
    count_wire, framed_write_failed, lemma_write_first, lemma_write_step, write_bytes,
    write_count, write_outcome, ByteBufferWrite,
};
use crate::byte_order::{ByteOrder, Endian};
use crate::error::ByteBufferError;
use vstd::prelude::*;
use vstd::utf8::encode_utf8;

verus! {

/// The bytes of a text: how many bytes its UTF-8 form has, then that form.
pub open spec fn text_wire(text: Seq<char>, order: ByteOrder) -> Seq<u8> {
    count_wire(encode_utf8(text).len(), order) + encode_utf8(text)
}

/// Writes `text` in the byte order that `endian` names.
///
/// A failure to grow for the count leaves the arena as it was; one for the bytes leaves the
/// count written. The error says why the capacity could not grow for the piece that did
/// not fit.
pub fn write_text(text: &str, buffer: &mut ByteBuffer, endian: Endian) -> (r: Result<
    (),
    ByteBufferError,
>)
    requires
        old(buffer).wf(),
    ensures
        write_outcome(
            old(buffer)@,
            text_wire(text@, endian.order_on(old(buffer)@.native)),
            r is Ok,
            final(buffer)@,
        ),
        r matches Err(e) ==> framed_write_failed(
            old(buffer)@,
            count_wire(encode_utf8(text@).len(), endian.order_on(old(buffer)@.native)),
            encode_utf8(text@),
            e,
            final(buffer)@,
        ),
{
    let ghost start = buffer@;
    let ghost order = endian.order_on(start.native);
    let ghost whole = text_wire(text@, order);
    let bytes = text.as_bytes();
    let ghost count = count_wire(bytes@.len(), order);
    let counted = write_count(buffer, bytes.len(), endian);
    proof {
        lemma_write_first(start, count, bytes@, whole, counted is Ok, buffer@);
    }
    if counted.is_err() {
        return counted;
    }
    let ghost current = buffer@;
    let r = write_bytes(buffer, bytes);
    proof {
        lemma_write_step(start, current, count, bytes@, Seq::empty(), whole, r is Ok, buffer@);
    }
    r
}

impl ByteBufferWrite for str {
    open spec fn wire(&self, order: ByteOrder) -> Seq<u8> {
        text_wire(self@, order)
    }

    fn write_to_bytey_buffer(&self, buffer: &mut ByteBuffer) -> (r: Result<(), ByteBufferError>)
        ensures
            r matches Err(e) ==> framed_write_failed(
                old(buffer)@,
                count_wire(encode_utf8(self@).len(), old(buffer)@.native),
                encode_utf8(self@),
                e,
                final(buffer)@,
            ),
    {
        write_text(self, buffer, Endian::Native)
    }

    fn write_to_bytey_buffer_le(&self, buffer: &mut ByteBuffer) -> (r: Result<(), ByteBufferError>)
        ensures
            r matches Err(e) ==> framed_write_failed(
                old(buffer)@,
                count_wire(encode_utf8(self@).len(), ByteOrder::Little),
                encode_utf8(self@),
                e,
                final(buffer)@,
            ),
    {
        write_text(self, buffer, Endian::Little)
    }

    fn write_to_bytey_buffer_be(&self, buffer: &mut ByteBuffer) -> (r: Result<(), ByteBufferError>)
        ensures
            r matches Err(e) ==> framed_write_failed(
                old(buffer)@,
                count_wire(encode_utf8(self@).len(), ByteOrder::Big),
                encode_utf8(self@),
                e,
                final(buffer)@,
            ),
    {
        write_text(self, buffer, Endian::Big)
    }
}

impl ByteBufferWrite for String {
    open spec fn wire(&self, order: ByteOrder) -> Seq<u8> {
        text_wire(self@, order)
    }

    fn write_to_bytey_buffer(&self, buffer: &mut ByteBuffer) -> (r: Result<(), ByteBufferError>)
        ensures
            r matches Err(e) ==> framed_write_failed(
                old(buffer)@,
                count_wire(encode_utf8(self@).len(), old(buffer)@.native),
                encode_utf8(self@),
                e,
                final(buffer)@,
            ),
    {
        write_text(self.as_str(), buffer, Endian::Native)
    }

    fn write_to_bytey_buffer_le(&self, buffer: &mut ByteBuffer) -> (r: Result<(), ByteBufferError>)
        ensures
            r matches Err(e) ==> framed_write_failed(
                old(buffer)@,
                count_wire(encode_utf8(self@).len(), ByteOrder::Little),
                encode_utf8(self@),
                e,
                final(buffer)@,
            ),
    {
        write_text(self.as_str(), buffer, Endian::Little)
    }

    fn write_to_bytey_buffer_be(&self, buffer: &mut ByteBuffer) -> (r: Result<(), ByteBufferError>)
        ensures
            r matches Err(e) ==> framed_write_failed(
                old(buffer)@,
                count_wire(encode_utf8(self@).len(), ByteOrder::Big),
                encode_utf8(self@),
                e,
                final(buffer)@,
            ),
    {
        write_text(self.as_str(), buffer, Endian::Big)
    }
}

} // verus!
