//! Default pricing, in mills (thousandths of a dollar); the multiplier is
//! scaled by 1000.

use vstd::prelude::*;

verus! {

pub const BASE_ECONOMY_PRICE: u64 = 299990;

pub const BASE_BUSINESS_PRICE: u64 = 899990;

pub const BASE_FIRST_CLASS_PRICE: u64 = 1999990;

pub const DEFAULT_MULTIPLIER: u64 = 1000;

} // verus!
