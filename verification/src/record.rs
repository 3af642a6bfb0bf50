//! The example record and its layout.
//!
//! An `ExampleKey` is `KEY_SIZE` bytes with no padding and no alignment
//! requirement. It has one field, the key: a 64-bit unsigned integer at
//! offset 0, `U64_WIDTH` bytes wide, stored big-endian.

use crate::buffer::{buffer_bytes, buffer_from_slice};
use crate::endian::{be_bytes, be_u64, lemma_be_round_trip, U64_WIDTH};
use crate::overlay::{encode_be, overlay_get, overlay_new};
use bytes::Bytes;
use vstd::prelude::*;

verus! {

/// Width of an encoded `ExampleKey`, in bytes: the width of its one field.
pub const KEY_SIZE: usize = U64_WIDTH;

/// Why a byte range is not a record.
#[derive(Clone, Copy, Debug, PartialEq, Eq, Structural)]
pub enum LayoutError {
    /// The byte range is not exactly as long as the record.
    SizeMismatch,
}

/// The outcome of decoding `bytes` as an `ExampleKey`: the key that they
/// encode when there are exactly `KEY_SIZE` of them, `SizeMismatch` otherwise.
pub open spec fn decode_key(bytes: Seq<u8>) -> Result<u64, LayoutError> {
    if bytes.len() == KEY_SIZE {
        Ok(be_u64(bytes))
    } else {
        Err(LayoutError::SizeMismatch)
    }
}

/// A key in its wire form: the eight bytes of its big-endian encoding.
#[derive(Debug, Eq, PartialEq)]
pub struct ExampleKey(pub [u8; 8]);

impl Clone for ExampleKey {
    /// A record with the same bytes.
    fn clone(&self) -> (copy: Self)
        ensures
            copy == *self,
    {
        ExampleKey(self.0)
    }
}

impl View for ExampleKey {
    type V = u64;

    /// The key that the record's bytes encode.
    open spec fn view(&self) -> u64 {
        be_u64(self.0@)
    }
}

impl ExampleKey {
    /// The fixed width of the record.
    pub fn size() -> (size: usize)
        ensures
            size == KEY_SIZE,
    {
        KEY_SIZE
    }

    /// The record that encodes `key`.
    pub fn new(key: u64) -> (record: ExampleKey)
        ensures
            record.0@ == be_bytes(key),
            record@ == key,
    {
        proof {
            lemma_be_round_trip(key);
        }
        ExampleKey(encode_be(key))
    }

    /// The key that the record encodes.
    pub fn get(&self) -> (key: u64)
        ensures
            key == self@,
    {
        match overlay_new(self.0.as_slice()) {
            Some(overlay) => overlay_get(&overlay),
            None => vstd::pervasive::unreached(),
        }
    }

    /// The record's bytes, as they go on the wire.
    pub fn as_bytes(&self) -> (bytes: &[u8])
        ensures
            bytes@ == self.0@,
            bytes@.len() == KEY_SIZE,
    {
        self.0.as_slice()
    }

    /// A new buffer that holds the record's bytes and nothing else.
    pub fn to_buffer(&self) -> (buffer: Bytes)
        ensures
            buffer_bytes(&buffer) == self.0@,
            decode_key(buffer_bytes(&buffer)) == Ok::<u64, LayoutError>(self@),
    {
        buffer_from_slice(self.0.as_slice())
    }
}

} // verus!
