//! A verified core for a static-asset HTTP server.
//!
//! The library decides, from a request method and path, which file under a
//! static root should be served, rejecting path traversal, applying a
//! directory-index fallback, and turning filesystem outcomes into HTTP
//! responses. All filesystem and network work stays outside: callers probe
//! the filesystem and hand the observed outcomes in as plain values.

use vstd::prelude::*;

pub mod path;
pub mod resolve;
pub mod response;
pub mod router;

verus! {

/// The byte value of `/`, the separator in request paths.
pub const SLASH: u8 = 47;

/// The byte value of `.`, which begins the traversal segments `.` and `..`.
pub const DOT: u8 = 46;

} // verus!
