use crate::constants::{REGISTER_COUNT, STORE_L3_CONDITION};
use vstd::prelude::*;

verus! {

/// One of the three tiers of backing memory a load or store may target.
/// Tier selection is computed here; the tiers themselves live outside this
/// layer.
#[derive(Clone, Copy, Debug, PartialEq, Eq, Structural)]
pub enum AddressSpace {
    L1,
    L2,
    L3,
}

/// Label under which an address space appears in disassembly text.
pub open spec fn spec_space_label(s: AddressSpace) -> Seq<char> {
    match s {
        AddressSpace::L1 => "L1"@,
        AddressSpace::L2 => "L2"@,
        AddressSpace::L3 => "L3"@,
    }
}

impl AddressSpace {
    /// The label this space carries in disassembly text.
    pub fn label(self) -> (r: &'static str)
        ensures
            r@ == spec_space_label(self),
    {
        match self {
            AddressSpace::L1 => "L1",
            AddressSpace::L2 => "L2",
            AddressSpace::L3 => "L3",
        }
    }
}

/// Memory-mode selector: the low two bits of the modifier byte.
pub open spec fn spec_mod_mem(m: u8) -> u8 {
    m & 0b11
}

/// Shift-amount selector: bits two and three of the modifier byte.
pub open spec fn spec_mod_shift(m: u8) -> u8 {
    (m >> 2) & 0b11
}

/// Condition/level selector: the high four bits of the modifier byte,
/// widened for comparison against the store boundary.
pub open spec fn spec_mod_cond(m: u8) -> int {
    (m >> 4) as int
}

/// Address space a load targets: L1 when the memory-mode bits are nonzero,
/// else L2. Loads never target L3.
pub open spec fn spec_load_space(m: u8) -> AddressSpace {
    if spec_mod_mem(m) != 0 {
        AddressSpace::L1
    } else {
        AddressSpace::L2
    }
}

/// Address space a store targets: the same space as a load while the
/// condition level is below the boundary, L3 at or above it.
pub open spec fn spec_store_space(m: u8) -> AddressSpace {
    if spec_mod_cond(m) < STORE_L3_CONDITION as int {
        spec_load_space(m)
    } else {
        AddressSpace::L3
    }
}

/// A fixed-width instruction word: opcode, two register selectors, a packed
/// modifier byte and a four-byte immediate operand. Every byte pattern is a
/// valid instruction; the accessors are total.
#[derive(Clone, Copy, Debug, PartialEq, Eq, Structural)]
pub struct Instruction {
    pub opcode: u8,
    pub dst: u8,
    pub src: u8,
    pub mod_: u8,
    pub imm32: u32,
}

impl Instruction {
    pub fn new(opcode: u8, dst: u8, src: u8, mod_: u8, imm32: u32) -> (r: Self)
        ensures
            r == (Instruction { opcode, dst, src, mod_, imm32 }),
    {
        Instruction { opcode, dst, src, mod_, imm32 }
    }

    /// The raw four-byte operand, untransformed.
    pub fn get_imm32(&self) -> (r: u32)
        ensures
            r == self.imm32,
    {
        self.imm32
    }

    /// The memory-mode bits of the modifier.
    pub fn get_mod_mem(&self) -> (r: u8)
        ensures
            r == spec_mod_mem(self.mod_),
    {
        self.mod_ & 0b11
    }

    /// The shift-amount bits of the modifier.
    pub fn get_mod_shift(&self) -> (r: u8)
        ensures
            r == spec_mod_shift(self.mod_),
    {
        (self.mod_ >> 2) & 0b11
    }

    /// The condition level of the modifier, in the range 0..16.
    pub fn get_mod_cond(&self) -> (r: i32)
        ensures
            r == spec_mod_cond(self.mod_),
            0 <= r < 16,
    {
        proof {
            let m = self.mod_;
            assert(m >> 4 < 16) by (bit_vector);
        }
        (self.mod_ >> 4) as i32
    }

    /// The address space a load through this instruction targets.
    pub fn load_address_space(&self) -> (r: AddressSpace)
        ensures
            r == spec_load_space(self.mod_),
    {
        if self.get_mod_mem() != 0 {
            AddressSpace::L1
        } else {
            AddressSpace::L2
        }
    }

    /// The address space a store through this instruction targets.
    pub fn store_address_space(&self) -> (r: AddressSpace)
        ensures
            r == spec_store_space(self.mod_),
    {
        if self.get_mod_cond() < STORE_L3_CONDITION {
            self.load_address_space()
        } else {
            AddressSpace::L3
        }
    }

    /// The label of the space a load targets.
    pub fn get_address_reg(&self) -> (r: &'static str)
        ensures
            r@ == spec_space_label(spec_load_space(self.mod_)),
    {
        self.load_address_space().label()
    }

    /// The label of the space a store targets.
    pub fn get_address_reg_dst(&self) -> (r: &'static str)
        ensures
            r@ == spec_space_label(spec_store_space(self.mod_)),
    {
        self.store_address_space().label()
    }
}

impl Default for Instruction {
    /// The all-zero instruction word.
    fn default() -> (r: Self)
        ensures
            r == (Instruction { opcode: 0, dst: 0, src: 0, mod_: 0, imm32: 0 }),
    {
        Instruction { opcode: 0, dst: 0, src: 0, mod_: 0, imm32: 0 }
    }
}

/// Store/load asymmetry. Below the condition boundary a store targets the
/// same space as a load of the same modifier; at or above it a store
/// targets L3, which a load never does.
pub proof fn lemma_store_load_asymmetry(m: u8)
    ensures
        spec_mod_cond(m) < STORE_L3_CONDITION as int ==> spec_store_space(m) == spec_load_space(m),
        spec_mod_cond(m) >= STORE_L3_CONDITION as int ==> spec_store_space(m) == AddressSpace::L3,
        spec_load_space(m) != AddressSpace::L3,
{
}

/// The load mapping depends only on the memory-mode bits, never on the
/// condition level.
pub proof fn lemma_load_space_ignores_condition(m1: u8, m2: u8)
    requires
        spec_mod_mem(m1) == spec_mod_mem(m2),
    ensures
        spec_load_space(m1) == spec_load_space(m2),
{
}

} // verus!
