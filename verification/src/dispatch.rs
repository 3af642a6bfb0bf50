//! The boundary between the decoder and a request handler.
//!
//! A handler reports whether it can take a request, and is called only when
//! it can. The handler itself lives outside this library; what is decided
//! here is whether a decoded request is passed on or held back. Only requests
//! that own their bytes cross this boundary.

use crate::request::Request;
use crate::view::OwnedView;
use vstd::prelude::*;

verus! {

/// What a handler answers when asked whether it can take a request.
#[derive(Clone, Copy, Debug, PartialEq, Eq, Structural)]
pub enum Readiness {
    /// The handler can take one request now.
    Ready,
    /// The handler cannot take a request now; ask again later.
    NotReady,
}

/// What to do with a decoded request.
#[derive(Debug)]
pub enum Dispatch {
    /// Call the handler with this request.
    Call(Request<OwnedView>),
    /// Do not call the handler; keep this request and ask for readiness again.
    Hold(Request<OwnedView>),
}

/// Decides what happens to `request` after the handler reported `readiness`:
/// it is passed on exactly when the handler is ready, and held back, as it
/// is, when the handler is not.
pub fn dispatch(readiness: Readiness, request: Request<OwnedView>) -> (action: Dispatch)
    ensures
        readiness == Readiness::Ready ==> action == Dispatch::Call(request),
        readiness == Readiness::NotReady ==> action == Dispatch::Hold(request),
{
    match readiness {
        Readiness::Ready => Dispatch::Call(request),
        Readiness::NotReady => Dispatch::Hold(request),
    }
}

} // verus!
