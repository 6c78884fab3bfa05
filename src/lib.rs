//! Ownership, borrowing and shared ownership of strings, with each step's
//! console output collected as lines whose contents are proved.
use vstd::prelude::*;

pub mod console;
pub mod decimal;
pub mod demo;
pub mod ownership;
pub mod shared;

verus! {

} // verus!
