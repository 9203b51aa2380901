//! A marker without a value is read from no bytes at all.

use crate::byte_buffer::{BufferView, ByteBuffer};
use crate::byte_buffer_read::{ByteBufferRead, ReadSpec};
use crate::byte_order::ByteOrder;
use crate::error::ByteBufferError;
use std::marker::PhantomData;
use vstd::prelude::*;

verus! {

impl<T> ByteBufferRead for PhantomData<T> {
    type Model = ();

    open spec fn model(&self) -> () {
        ()
    }

    open spec fn read_spec(state: BufferView, order: ByteOrder) -> ReadSpec<()> {
        (state, Ok(()))
    }

    fn read_from_bytey_buffer(buffer: &mut ByteBuffer) -> (r: Result<Self, ByteBufferError>) {
        Ok(PhantomData)
    }

    fn read_from_bytey_buffer_le(buffer: &mut ByteBuffer) -> (r: Result<Self, ByteBufferError>) {
        Ok(PhantomData)
    }

    fn read_from_bytey_buffer_be(buffer: &mut ByteBuffer) -> (r: Result<Self, ByteBufferError>) {
        Ok(PhantomData)
    }
}

} // verus!
