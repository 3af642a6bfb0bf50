//! The typed overlay: what this library assumes of `zerocopy`.
//!
//! `zerocopy::LayoutVerified<B, T>` wraps a byte slice `B` whose length was
//! checked against the size of `T`. Here `T` is always
//! `zerocopy::U64<BigEndian>`, eight bytes with no alignment requirement.
//! Nothing here is proved; each item states what the `zerocopy` crate documents.

use crate::endian::{be_bytes, be_u64, U64_WIDTH};
use vstd::prelude::*;
use zerocopy::{BigEndian, LayoutVerified, U64};

verus! {

/// `zerocopy::LayoutVerified`, opaque to the verifier.
#[verifier::external_type_specification]
#[verifier::external_body]
#[verifier::reject_recursive_types(B)]
#[verifier::reject_recursive_types(T)]
pub struct ExLayoutVerified<B, T: ?Sized>(zerocopy::LayoutVerified<B, T>);

/// `zerocopy::U64`, opaque to the verifier.
#[verifier::external_type_specification]
#[verifier::external_body]
#[verifier::reject_recursive_types(O)]
pub struct ExU64<O>(zerocopy::U64<O>);

/// `zerocopy::BigEndian`, the byte-order marker.
#[verifier::external_type_specification]
#[verifier::external_body]
pub struct ExBigEndian(zerocopy::BigEndian);

/// The bytes that an overlay covers, in order.
pub uninterp spec fn overlay_bytes(overlay: &LayoutVerified<&[u8], U64<BigEndian>>) -> Seq<u8>;

/// `LayoutVerified::new_unaligned`: an overlay of `bytes`, made exactly when
/// `bytes` is eight bytes long; it covers those bytes and copies nothing.
#[verifier::external_body]
pub(crate) fn overlay_new<'a>(bytes: &'a [u8]) -> (overlay: Option<
    LayoutVerified<&'a [u8], U64<BigEndian>>,
>)
    ensures
        overlay.is_some() <==> bytes@.len() == U64_WIDTH,
        overlay matches Some(o) ==> overlay_bytes(&o) == bytes@,
{
    LayoutVerified::new_unaligned(bytes)
}

/// `U64::<BigEndian>::get` through the overlay's `Deref`: the integer whose
/// big-endian encoding the overlay covers.
#[verifier::external_body]
pub(crate) fn overlay_get(overlay: &LayoutVerified<&[u8], U64<BigEndian>>) -> (value: u64)
    requires
        overlay_bytes(overlay).len() == U64_WIDTH,
    ensures
        value == be_u64(overlay_bytes(overlay)),
{
    overlay.get()
}

/// `U64::<BigEndian>::new`, then its conversion into `[u8; 8]`: the
/// big-endian encoding of `value`.
#[verifier::external_body]
pub(crate) fn encode_be(value: u64) -> (bytes: [u8; 8])
    ensures
        bytes@ == be_bytes(value),
{
    U64::<BigEndian>::new(value).into()
}

} // verus!
