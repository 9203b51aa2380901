//! The integer wrappers `Wrapping` and `Saturating` are written as the integer in them.

use crate::byte_buffer::ByteBuffer;
use crate::byte_buffer_write::ByteBufferWrite;
use crate::byte_order::ByteOrder;
use crate::error::ByteBufferError;
use core::num::{Saturating, Wrapping};
use vstd::prelude::*;

verus! {

/// `core::num::Wrapping`, a public field around an integer.
#[verifier::external_type_specification]
#[verifier::reject_recursive_types(T)]
pub struct ExWrapping<T>(Wrapping<T>);

/// `core::num::Saturating`, a public field around an integer.
#[verifier::external_type_specification]
#[verifier::reject_recursive_types(T)]
pub struct ExSaturating<T>(Saturating<T>);

impl<T: ByteBufferWrite + Copy> ByteBufferWrite for Wrapping<T> {
    open spec fn wire(&self, order: ByteOrder) -> Seq<u8> {
        self.0.wire(order)
    }

    fn write_to_bytey_buffer(&self, buffer: &mut ByteBuffer) -> (r: Result<(), ByteBufferError>) {
        self.0.write_to_bytey_buffer(buffer)
    }

    fn write_to_bytey_buffer_le(
        &self,
        buffer: &mut ByteBuffer,
    ) -> (r: Result<(), ByteBufferError>) {
        self.0.write_to_bytey_buffer_le(buffer)
    }

    fn write_to_bytey_buffer_be(
        &self,
        buffer: &mut ByteBuffer,
    ) -> (r: Result<(), ByteBufferError>) {
        self.0.write_to_bytey_buffer_be(buffer)
    }
}

impl<T: ByteBufferWrite + Copy> ByteBufferWrite for Saturating<T> {
    open spec fn wire(&self, order: ByteOrder) -> Seq<u8> {
        self.0.wire(order)
    }

    fn write_to_bytey_buffer(&self, buffer: &mut ByteBuffer) -> (r: Result<(), ByteBufferError>) {
        self.0.write_to_bytey_buffer(buffer)
    }

    fn write_to_bytey_buffer_le(
        &self,
        buffer: &mut ByteBuffer,
    ) -> (r: Result<(), ByteBufferError>) {
        self.0.write_to_bytey_buffer_le(buffer)
    }

    fn write_to_bytey_buffer_be(
        &self,
        buffer: &mut ByteBuffer,
    ) -> (r: Result<(), ByteBufferError>) {
        self.0.write_to_bytey_buffer_be(buffer)
    }
}

} // verus!
