use vstd::prelude::*;

verus! {

/// Number of integer registers in the VM's register file. Raw `dst`/`src`
/// selector bytes are reduced modulo this count when rendered as register
/// operands.
pub const REGISTER_COUNT: u8 = 8;

/// Condition-level boundary: a store whose condition level is at or above
/// this value targets the L3 address space.
pub const STORE_L3_CONDITION: i32 = 14;

} // verus!
