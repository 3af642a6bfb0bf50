//! Validated views: proof that a byte range has the layout of an `ExampleKey`.
//!
//! A view is made only by a constructor that compares the range's length with
//! `KEY_SIZE`. It copies no bytes: fields are read from the range on demand.
//! `BorrowedView` refers to bytes that its maker keeps alive; `OwnedView`
//! keeps a shared handle to the buffer and so depends on nothing else.

use crate::buffer::{buffer_bytes, buffer_clone, buffer_slice};
use crate::endian::{be_u64, lemma_be_bytes_of_value};
use crate::overlay::{overlay_bytes, overlay_get, overlay_new};
use crate::record::{LayoutError, KEY_SIZE};
use bytes::Bytes;
use vstd::prelude::*;
use vstd::std_specs::cmp::PartialEqSpecImpl;
use zerocopy::{BigEndian, LayoutVerified, U64};

verus! {

/// A validated view that borrows its bytes.
#[derive(Debug)]
pub struct BorrowedView<'a> {
    overlay: LayoutVerified<&'a [u8], U64<BigEndian>>,
}

/// A validated view that shares ownership of the buffer it was decoded from.
#[derive(Debug)]
pub struct OwnedView {
    buffer: Bytes,
}

impl<'a> View for BorrowedView<'a> {
    type V = Seq<u8>;

    /// The bytes under the view.
    closed spec fn view(&self) -> Seq<u8> {
        overlay_bytes(&self.overlay)
    }
}

impl View for OwnedView {
    type V = Seq<u8>;

    /// The bytes under the view.
    closed spec fn view(&self) -> Seq<u8> {
        buffer_bytes(&self.buffer)
    }
}

impl<'a> PartialEq for BorrowedView<'a> {
    /// Two views are equal when the bytes under them are.
    fn eq(&self, other: &Self) -> (equal: bool) {
        let (left, right) = (self.key(), other.key());
        proof {
            lemma_be_bytes_of_value(self@);
            lemma_be_bytes_of_value(other@);
        }
        left == right
    }
}

impl<'a> PartialEqSpecImpl for BorrowedView<'a> {
    open spec fn obeys_eq_spec() -> bool {
        true
    }

    open spec fn eq_spec(&self, other: &Self) -> bool {
        self@ == other@
    }
}

impl<'a> Eq for BorrowedView<'a> {

}

impl Clone for OwnedView {
    /// A second view that shares the same buffer: no byte is copied.
    fn clone(&self) -> (copy: Self)
        ensures
            copy@ == self@,
    {
        proof {
            use_type_invariant(self);
        }
        OwnedView { buffer: buffer_clone(&self.buffer) }
    }
}

impl PartialEq for OwnedView {
    /// Two views are equal when the bytes under them are.
    fn eq(&self, other: &Self) -> (equal: bool) {
        let (left, right) = (self.key(), other.key());
        proof {
            lemma_be_bytes_of_value(self@);
            lemma_be_bytes_of_value(other@);
        }
        left == right
    }
}

impl PartialEqSpecImpl for OwnedView {
    open spec fn obeys_eq_spec() -> bool {
        true
    }

    open spec fn eq_spec(&self, other: &Self) -> bool {
        self@ == other@
    }
}

impl Eq for OwnedView {

}

impl<'a> BorrowedView<'a> {
    #[verifier::type_invariant]
    spec fn sized(&self) -> bool {
        overlay_bytes(&self.overlay).len() == KEY_SIZE
    }

    /// The value of the key field, as the bytes under the view give it.
    pub open spec fn key_value(&self) -> u64 {
        be_u64(self@)
    }

    /// Validates a raw byte range: a view of `bytes` when there are exactly
    /// `KEY_SIZE` of them, `SizeMismatch` otherwise.
    pub fn from_slice(bytes: &'a [u8]) -> (result: Result<BorrowedView<'a>, LayoutError>)
        ensures
            match result {
                Ok(view) => bytes@.len() == KEY_SIZE && view@ == bytes@,
                Err(error) => bytes@.len() != KEY_SIZE && error == LayoutError::SizeMismatch,
            },
    {
        match overlay_new(bytes) {
            Some(overlay) => Ok(BorrowedView { overlay }),
            None => Err(LayoutError::SizeMismatch),
        }
    }

    /// Validates a buffer that the caller keeps: a view of its bytes when
    /// there are exactly `KEY_SIZE` of them, `SizeMismatch` otherwise.
    pub fn from_borrowed(buffer: &'a Bytes) -> (result: Result<BorrowedView<'a>, LayoutError>)
        ensures
            match result {
                Ok(view) => buffer_bytes(buffer).len() == KEY_SIZE && view@ == buffer_bytes(
                    buffer,
                ),
                Err(error) => buffer_bytes(buffer).len() != KEY_SIZE && error
                    == LayoutError::SizeMismatch,
            },
    {
        BorrowedView::from_slice(buffer_slice(buffer))
    }

    /// Reads the key field: the big-endian integer in the eight bytes under
    /// the view.
    pub fn key(&self) -> (key: u64)
        ensures
            self@.len() == KEY_SIZE,
            key == self.key_value(),
    {
        proof {
            use_type_invariant(self);
        }
        overlay_get(&self.overlay)
    }
}

impl OwnedView {
    #[verifier::type_invariant]
    spec fn sized(&self) -> bool {
        buffer_bytes(&self.buffer).len() == KEY_SIZE
    }

    /// The value of the key field, as the bytes under the view give it.
    pub open spec fn key_value(&self) -> u64 {
        be_u64(self@)
    }

    /// The view that holds `buffer`. It stands for a decoded record only when
    /// `buffer` has `KEY_SIZE` bytes.
    pub closed spec fn holding(buffer: Bytes) -> OwnedView {
        OwnedView { buffer }
    }

    /// Validates a buffer and keeps it: the view that holds `buffer` when it
    /// has exactly `KEY_SIZE` bytes, `SizeMismatch` otherwise. The handle is
    /// moved into the view; no byte is copied.
    pub fn from_owned(buffer: Bytes) -> (result: Result<OwnedView, LayoutError>)
        ensures
            match result {
                Ok(view) => buffer_bytes(&buffer).len() == KEY_SIZE && view == OwnedView::holding(
                    buffer,
                ) && view@ == buffer_bytes(&buffer),
                Err(error) => buffer_bytes(&buffer).len() != KEY_SIZE && error
                    == LayoutError::SizeMismatch,
            },
    {
        let fits = overlay_new(buffer_slice(&buffer)).is_some();
        if fits {
            Ok(OwnedView { buffer })
        } else {
            Err(LayoutError::SizeMismatch)
        }
    }

    /// A borrowing view of the same bytes, valid while `self` is. The overlay
    /// is laid over the buffer anew; its length test cannot fail here.
    pub fn borrowed(&self) -> (view: BorrowedView<'_>)
        ensures
            view@ == self@,
            self@.len() == KEY_SIZE,
    {
        proof {
            use_type_invariant(self);
        }
        match overlay_new(buffer_slice(&self.buffer)) {
            Some(overlay) => BorrowedView { overlay },
            None => vstd::pervasive::unreached(),
        }
    }

    /// Reads the key field: the big-endian integer in the eight bytes under
    /// the view.
    pub fn key(&self) -> (key: u64)
        ensures
            self@.len() == KEY_SIZE,
            key == self.key_value(),
    {
        self.borrowed().key()
    }

    /// Gives back the buffer that the view holds.
    pub fn into_buffer(self) -> (buffer: Bytes)
        ensures
            self == OwnedView::holding(buffer),
            buffer_bytes(&buffer) == self@,
            buffer_bytes(&buffer).len() == KEY_SIZE,
    {
        proof {
            use_type_invariant(&self);
        }
        self.buffer
    }
}

} // verus!
