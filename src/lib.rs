//! Signing and response-decoding core of a client for the MEXC spot REST API.
use vstd::prelude::*;

pub mod encode;
pub mod query;
pub mod deposit_address;
pub mod withdraw;
pub mod sign;
pub mod response;

verus! {

} // verus!
