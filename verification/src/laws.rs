//! Laws that relate encoding, decoding and the two kinds of view.

use crate::buffer::buffer_bytes;
use crate::endian::{be_bytes, lemma_be_round_trip};
use crate::record::{decode_key, ExampleKey, LayoutError, KEY_SIZE};
use crate::view::{BorrowedView, OwnedView};
use bytes::Bytes;
use vstd::prelude::*;

verus! {

/// Decoding the encoding of a key succeeds and yields that key.
pub proof fn lemma_encode_decode(key: u64)
    ensures
        be_bytes(key).len() == KEY_SIZE,
        decode_key(be_bytes(key)) == Ok::<u64, LayoutError>(key),
{
    lemma_be_round_trip(key);
}

/// What a view reads from its bytes is what decoding those bytes yields.
pub proof fn lemma_view_reads_decoded_key(owned: OwnedView, borrowed: BorrowedView)
    requires
        owned@.len() == KEY_SIZE,
        borrowed@.len() == KEY_SIZE,
    ensures
        decode_key(owned@) == Ok::<u64, LayoutError>(owned.key_value()),
        decode_key(borrowed@) == Ok::<u64, LayoutError>(borrowed.key_value()),
{
}

/// A record and a view over the record's bytes give the same key, whichever
/// kind of view it is.
pub proof fn lemma_view_of_record(record: ExampleKey, owned: OwnedView, borrowed: BorrowedView)
    requires
        owned@ == record.0@,
        borrowed@ == record.0@,
    ensures
        owned.key_value() == record@,
        borrowed.key_value() == record@,
{
}

/// An owning view and a borrowing view over equal bytes give equal keys.
pub proof fn lemma_flavors_agree(owned: OwnedView, borrowed: BorrowedView)
    requires
        owned@ == borrowed@,
    ensures
        owned.key_value() == borrowed.key_value(),
{
}

/// Two buffers that hold equal bytes decode alike: both fail, or both
/// succeed with equal keys.
pub proof fn lemma_equal_buffers_decode_alike(first: Bytes, second: Bytes)
    requires
        buffer_bytes(&first) == buffer_bytes(&second),
    ensures
        decode_key(buffer_bytes(&first)) == decode_key(buffer_bytes(&second)),
{
}

} // verus!
