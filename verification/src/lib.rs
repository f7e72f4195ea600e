//! Transaction assembly, fee accounting and coin selection for Simplicity
//! programs on Elements/Liquid, with the decisions proved by Verus.
use vstd::prelude::*;

pub mod bytes;
pub mod constants;
pub mod encoding;
pub mod error;
pub mod fee;
pub mod funding;
pub mod issuance;
pub mod laws;
pub mod network;
pub mod script;
pub mod signing;
pub mod transaction;

verus! {

} // verus!
