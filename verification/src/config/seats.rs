//! Default seat distribution, in whole percent.

use vstd::prelude::*;

verus! {

pub const ECONOMY_PERCENTAGE: u32 = 70;

pub const BUSINESS_PERCENTAGE: u32 = 25;

pub const FIRST_CLASS_PERCENTAGE: u32 = 5;

} // verus!
