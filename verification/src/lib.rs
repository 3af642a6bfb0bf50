//! Zero-copy views of fixed-layout binary records held in shared byte buffers.
//!
//! A record is decoded by validating a buffer's length once and then reading
//! fields straight from the buffer's bytes. A decoded view either borrows the
//! buffer or keeps a shared handle to it; only the second kind is handed to a
//! request handler.

pub mod buffer;
pub mod dispatch;
pub mod endian;
pub mod laws;
pub mod overlay;
pub mod record;
pub mod request;
pub mod view;
