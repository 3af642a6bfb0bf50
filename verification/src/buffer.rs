//! The shared byte buffer: what this library assumes of `bytes::Bytes`.
//!
//! A `Bytes` is an immutable, reference-counted window onto contiguous bytes.
//! Nothing here is proved; each item states what the `bytes` crate documents.

use bytes::Bytes;
use vstd::prelude::*;

verus! {

/// `bytes::Bytes`, opaque to the verifier.
#[verifier::external_type_specification]
#[verifier::external_body]
pub struct ExBytes(bytes::Bytes);

/// The bytes that a buffer holds, in order.
pub uninterp spec fn buffer_bytes(buffer: &Bytes) -> Seq<u8>;

/// `<Bytes as AsRef<[u8]>>::as_ref`: the buffer's bytes as a slice, without
/// copying them.
#[verifier::external_body]
pub(crate) fn buffer_slice(buffer: &Bytes) -> (slice: &[u8])
    ensures
        slice@ == buffer_bytes(buffer),
{
    buffer.as_ref()
}

/// `<Bytes as Clone>::clone`: a second handle to the same bytes.
#[verifier::external_body]
pub(crate) fn buffer_clone(buffer: &Bytes) -> (copy: Bytes)
    ensures
        buffer_bytes(&copy) == buffer_bytes(buffer),
{
    buffer.clone()
}

/// `Bytes::copy_from_slice`: a new buffer that holds a copy of `data`.
#[verifier::external_body]
pub(crate) fn buffer_from_slice(data: &[u8]) -> (buffer: Bytes)
    ensures
        buffer_bytes(&buffer) == data@,
{
    Bytes::copy_from_slice(data)
}

} // verus!
