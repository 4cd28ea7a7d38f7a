//! Protocol and transport constants.

use vstd::prelude::*;

verus! {

/// The largest number of light-client updates one request may ask for.
pub const MAX_REQUEST_LIGHT_CLIENT_UPDATES: u8 = 128;

/// How many times a transiently failing request is sent again.
pub const MAX_RETRIES: u32 = 3;

/// The base of the exponential backoff between retries.
pub const BACKOFF_EXPONENT: u32 = 1;

} // verus!
