//! A minimal web site library: one rendered HTML page and two static-file
//! directories. The page renderer, the route decision and the response rules
//! are verified; the surrounding HTTP server performs the I/O.

use vstd::prelude::*;

pub mod content;
pub mod render;
pub mod response;
pub mod routes;

verus! {

/// The TCP port the site listens on.
pub const SERVER_PORT: u16 = 3007;

} // verus!
