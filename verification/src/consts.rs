//! Fixed texts the router agrees on with every connector.

use vstd::prelude::*;

verus! {

/// Code of a failure for which the gateway gave no code of its own.
pub const NO_ERROR_CODE: &'static str = "No error code";

} // verus!
