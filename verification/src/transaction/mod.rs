//! Inputs, outputs and the transaction under construction.
use vstd::prelude::*;

pub mod change_output;
pub mod final_transaction;
pub mod partial_input;
pub mod partial_output;

verus! {

} // verus!
