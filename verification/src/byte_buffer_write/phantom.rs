//! A marker without a value is written as no bytes at all.

use crate::byte_buffer::ByteBuffer;
use crate::byte_buffer_write::{lemma_put_nothing, ByteBufferWrite};
use crate::byte_order::ByteOrder;
use crate::error::ByteBufferError;
use std::marker::PhantomData;
use vstd::prelude::*;

verus! {

impl<T> ByteBufferWrite for PhantomData<T> {
    open spec fn wire(&self, order: ByteOrder) -> Seq<u8> {
        Seq::empty()
    }

    fn write_to_bytey_buffer(&self, buffer: &mut ByteBuffer) -> (r: Result<(), ByteBufferError>)
        ensures
            r is Ok,
    {
        proof {
            lemma_put_nothing(buffer@);
        }
        Ok(())
    }

    fn write_to_bytey_buffer_le(&self, buffer: &mut ByteBuffer) -> (r: Result<(), ByteBufferError>)
        ensures
            r is Ok,
    {
        proof {
            lemma_put_nothing(buffer@);
        }
        Ok(())
    }

    fn write_to_bytey_buffer_be(&self, buffer: &mut ByteBuffer) -> (r: Result<(), ByteBufferError>)
        ensures
            r is Ok,
    {
        proof {
            lemma_put_nothing(buffer@);
        }
        Ok(())
    }
}

} // verus!
