//! Ids of the providers that live inside the company rather than outside it.

use vstd::prelude::*;

verus! {

pub const INTERNAL_INVENTORY: &'static str = "II";
pub const ORDER_BOOK: &'static str = "ORBK";

} // verus!
