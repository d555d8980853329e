//! The limits that a request has to keep.

use vstd::prelude::*;

verus! {

pub const MAX_HTTP_HEADERS_COUNT: usize = 50;

pub const MIN_HTTP_REQUEST_TIMEOUT_MS: u64 = 5_000;

pub const MAX_HTTP_REQUEST_TIMEOUT_MS: u64 = 60_000;

} // verus!
