//! Baggage allowances by seat class, in kilograms.

use vstd::prelude::*;

verus! {

pub const ECONOMY_ALLOWANCE: u32 = 23;

pub const BUSINESS_ALLOWANCE: u32 = 32;

pub const FIRST_CLASS_ALLOWANCE: u32 = 46;

} // verus!
