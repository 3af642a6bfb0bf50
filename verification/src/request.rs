//! The request envelope and the decoder that fills it.

use crate::buffer::buffer_bytes;
use crate::record::{LayoutError, KEY_SIZE};
use crate::view::{BorrowedView, OwnedView};
use bytes::Bytes;
use vstd::prelude::*;
use vstd::std_specs::cmp::{PartialEqSpec, PartialEqSpecImpl};
use vstd::std_specs::convert::TryFromSpecImpl;

verus! {

/// A request: a carrier for one payload, with no behaviour of its own.
#[derive(Debug)]
pub struct Request<K>(pub K);

impl<K: PartialEq> PartialEq for Request<K> {
    /// Two requests are equal when their payloads are.
    fn eq(&self, other: &Self) -> (equal: bool) {
        self.0 == other.0
    }
}

impl<K: PartialEq> PartialEqSpecImpl for Request<K> {
    open spec fn obeys_eq_spec() -> bool {
        K::obeys_eq_spec()
    }

    open spec fn eq_spec(&self, other: &Self) -> bool {
        self.0.eq_spec(&other.0)
    }
}

impl<K: Eq> Eq for Request<K> {

}

impl Request<OwnedView> {
    /// Decodes a buffer into a request that owns its bytes: the only kind
    /// that may be handed to a handler. Succeeds exactly when the buffer
    /// holds `KEY_SIZE` bytes; the payload then views those bytes.
    pub fn decode(buffer: Bytes) -> (result: Result<Request<OwnedView>, LayoutError>)
        ensures
            match result {
                Ok(request) => buffer_bytes(&buffer).len() == KEY_SIZE && request.0
                    == OwnedView::holding(buffer) && request.0@ == buffer_bytes(&buffer),
                Err(error) => buffer_bytes(&buffer).len() != KEY_SIZE && error
                    == LayoutError::SizeMismatch,
            },
    {
        match OwnedView::from_owned(buffer) {
            Ok(view) => Ok(Request(view)),
            Err(error) => Err(error),
        }
    }
}

impl<'a> Request<BorrowedView<'a>> {
    /// Decodes a buffer that the caller keeps into a request that borrows
    /// its bytes. Succeeds exactly when the buffer holds `KEY_SIZE` bytes;
    /// the payload then views those bytes.
    pub fn decode_borrowed(buffer: &'a Bytes) -> (result: Result<
        Request<BorrowedView<'a>>,
        LayoutError,
    >)
        ensures
            match result {
                Ok(request) => buffer_bytes(buffer).len() == KEY_SIZE && request.0@
                    == buffer_bytes(buffer),
                Err(error) => buffer_bytes(buffer).len() != KEY_SIZE && error
                    == LayoutError::SizeMismatch,
            },
    {
        match BorrowedView::from_borrowed(buffer) {
            Ok(view) => Ok(Request(view)),
            Err(error) => Err(error),
        }
    }
}

impl TryFrom<Bytes> for Request<OwnedView> {
    type Error = LayoutError;

    /// The same as `decode`.
    fn try_from(buffer: Bytes) -> (result: Result<Self, LayoutError>)
        ensures
            match result {
                Ok(request) => buffer_bytes(&buffer).len() == KEY_SIZE && request.0
                    == OwnedView::holding(buffer) && request.0@ == buffer_bytes(&buffer),
                Err(error) => buffer_bytes(&buffer).len() != KEY_SIZE && error
                    == LayoutError::SizeMismatch,
            },
    {
        Request::decode(buffer)
    }
}

impl TryFromSpecImpl<Bytes> for Request<OwnedView> {
    open spec fn obeys_try_from_spec() -> bool {
        true
    }

    open spec fn try_from_spec(buffer: Bytes) -> Result<Self, LayoutError> {
        if buffer_bytes(&buffer).len() == KEY_SIZE {
            Ok(Request(OwnedView::holding(buffer)))
        } else {
            Err(LayoutError::SizeMismatch)
        }
    }
}

impl<'a> TryFrom<&'a Bytes> for Request<BorrowedView<'a>> {
    type Error = LayoutError;

    /// The same as `decode_borrowed`.
    fn try_from(buffer: &'a Bytes) -> (result: Result<Self, LayoutError>)
        ensures
            match result {
                Ok(request) => buffer_bytes(buffer).len() == KEY_SIZE && request.0@
                    == buffer_bytes(buffer),
                Err(error) => buffer_bytes(buffer).len() != KEY_SIZE && error
                    == LayoutError::SizeMismatch,
            },
    {
        Request::decode_borrowed(buffer)
    }
}

impl<'a> TryFromSpecImpl<&'a Bytes> for Request<BorrowedView<'a>> {
    /// A borrowing view is not a function of the bytes alone, so the result
    /// is stated by `try_from` itself.
    open spec fn obeys_try_from_spec() -> bool {
        false
    }

    open spec fn try_from_spec(buffer: &'a Bytes) -> Result<Self, LayoutError> {
        if buffer_bytes(buffer).len() == KEY_SIZE {
            Ok(Request(choose|view: BorrowedView<'a>| view@ == buffer_bytes(buffer)))
        } else {
            Err(LayoutError::SizeMismatch)
        }
    }
}

} // verus!
