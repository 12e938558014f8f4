//! Markers that tell the flows of the router apart at the type level.

use vstd::prelude::*;

verus! {

/// Authorization of a payment.
#[derive(Clone, Copy, Debug, PartialEq, Eq, Structural)]
pub struct Authorize;

/// Creation of a refund.
#[derive(Clone, Copy, Debug, PartialEq, Eq, Structural)]
pub struct Execute;

/// Poll of a refund's status.
#[derive(Clone, Copy, Debug, PartialEq, Eq, Structural)]
pub struct RSync;

} // verus!
