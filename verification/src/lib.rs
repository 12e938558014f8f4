//! Conversions between the router's connector-agnostic payment model and the
//! request and response schema of the Square payments API.
//!
//! Every conversion is a pure function of its arguments, with one
//! exception: a request that creates a payment or a refund carries an
//! idempotency key that is drawn at random. For those two, a second
//! function takes the key as an argument and is a pure function too.
//!
//! - [`money`], [`status`], [`auth`]: amounts, status vocabularies and the
//!   credential, each with the gateway's form and the router's.
//! - [`payments`], [`refunds`]: the requests the gateway takes, the
//!   answers it gives, and what the answers come to.
//! - [`idempotency`]: the shape of an idempotency key and where one comes
//!   from.
//! - [`types`], [`enums`], [`errors`], [`consts`], [`api`]: the router's
//!   side of every conversion.

pub mod api;
pub mod auth;
pub mod consts;
pub mod enums;
pub mod errors;
pub mod idempotency;
pub mod money;
pub mod payments;
pub mod refunds;
pub mod status;
pub mod types;
