use crate::constants::REGISTER_COUNT;
use crate::distribution::{spec_mnemonic_for, OpcodeDistribution};
use crate::instruction::{spec_space_label, spec_store_space, Instruction};
use crate::mnemonic::{spec_family, spec_name, Mnemonic, RenderFamily};
use crate::numtext::{i32_to_string, spec_int_str, spec_uint_str, u32_to_string};
use vstd::prelude::*;
use vstd::string::StringExecFns;

verus! {

/// The canonical assembly text of an instruction word rendered under a
/// mnemonic: one fixed template per rendering family.
pub open spec fn spec_render(i: Instruction, m: Mnemonic) -> Seq<char> {
    let dst = (i.dst % REGISTER_COUNT) as nat;
    let src = (i.src % REGISTER_COUNT) as nat;
    match spec_family(m) {
        RenderFamily::TwoReg => spec_name(m) + " r"@ + spec_uint_str(dst) + ", r"@
            + spec_uint_str(src),
        RenderFamily::RegMem => spec_name(m) + " r"@ + spec_uint_str(dst) + ", [r"@
            + spec_uint_str(src) + "]"@,
        RenderFamily::SubSpecial => if dst != src {
            spec_name(m) + " r"@ + spec_uint_str(dst) + ", r"@ + spec_uint_str(src)
        } else {
            spec_name(m) + " r"@ + spec_uint_str(dst) + ", "@ + spec_uint_str(i.imm32 as nat)
        },
        RenderFamily::Store => spec_name(m) + " "@ + spec_space_label(spec_store_space(i.mod_))
            + "[r"@ + spec_uint_str(dst) + " "@ + spec_int_str(i.imm32 as i32 as int) + "], r"@
            + spec_uint_str(src),
        RenderFamily::Branch => spec_name(m) + " "@ + spec_uint_str(i.imm32 as nat),
        RenderFamily::RoundControl => spec_name(m) + " "@ + spec_uint_str(i.dst as nat),
        RenderFamily::Negate => spec_name(m) + " r"@ + spec_uint_str(i.dst as nat),
        RenderFamily::NoOp => spec_name(m),
    }
}

/// Renders a decoded instruction word under the given mnemonic into its
/// canonical assembly text. Pure text production: total, no failure state.
pub fn render(instr: &Instruction, m: Mnemonic) -> (s: String)
    ensures
        s@ == spec_render(*instr, m),
{
    let dst: u8 = instr.dst % REGISTER_COUNT;
    let src: u8 = instr.src % REGISTER_COUNT;
    match m.family() {
        RenderFamily::TwoReg => {
            let mut s = String::from_str(m.name());
            s.append(" r");
            s.append(u32_to_string(dst as u32).as_str());
            s.append(", r");
            s.append(u32_to_string(src as u32).as_str());
            s
        },
        RenderFamily::RegMem => {
            let mut s = String::from_str(m.name());
            s.append(" r");
            s.append(u32_to_string(dst as u32).as_str());
            s.append(", [r");
            s.append(u32_to_string(src as u32).as_str());
            s.append("]");
            s
        },
        RenderFamily::SubSpecial => {
            let mut s = String::from_str(m.name());
            s.append(" r");
            s.append(u32_to_string(dst as u32).as_str());
            if dst != src {
                s.append(", r");
                s.append(u32_to_string(src as u32).as_str());
            } else {
                s.append(", ");
                s.append(u32_to_string(instr.imm32).as_str());
            }
            s
        },
        RenderFamily::Store => {
            let mut s = String::from_str(m.name());
            s.append(" ");
            s.append(instr.store_address_space().label());
            s.append("[r");
            s.append(u32_to_string(dst as u32).as_str());
            s.append(" ");
            s.append(i32_to_string(instr.imm32 as i32).as_str());
            s.append("], r");
            s.append(u32_to_string(src as u32).as_str());
            s
        },
        RenderFamily::Branch => {
            let mut s = String::from_str(m.name());
            s.append(" ");
            s.append(u32_to_string(instr.imm32).as_str());
            s
        },
        RenderFamily::RoundControl => {
            let mut s = String::from_str(m.name());
            s.append(" ");
            s.append(u32_to_string(instr.dst as u32).as_str());
            s
        },
        RenderFamily::Negate => {
            let mut s = String::from_str(m.name());
            s.append(" r");
            s.append(u32_to_string(instr.dst as u32).as_str());
            s
        },
        RenderFamily::NoOp => String::from_str(m.name()),
    }
}

impl OpcodeDistribution {
    /// Resolves the instruction's opcode through the table and renders the
    /// word: the one-line diagnostic text for this instruction.
    pub fn disassemble(&self, instr: &Instruction) -> (s: String)
        ensures
            s@ == spec_render(*instr, spec_mnemonic_for(instr.opcode)),
    {
        let m = self.mnemonic_for(instr.opcode);
        render(instr, m)
    }
}

/// Subtract immediate fallback. An ISUB_R instruction whose reduced
/// register indices differ renders in the two-register form; one whose
/// indices coincide renders with the raw immediate instead of the
/// degenerate self-subtract.
pub proof fn lemma_isub_fallback(i: Instruction)
    ensures
        (i.dst % REGISTER_COUNT) != (i.src % REGISTER_COUNT) ==> spec_render(i, Mnemonic::ISubR)
            == spec_name(Mnemonic::ISubR) + " r"@ + spec_uint_str((i.dst % REGISTER_COUNT) as nat)
            + ", r"@ + spec_uint_str((i.src % REGISTER_COUNT) as nat),
        (i.dst % REGISTER_COUNT) == (i.src % REGISTER_COUNT) ==> spec_render(i, Mnemonic::ISubR)
            == spec_name(Mnemonic::ISubR) + " r"@ + spec_uint_str((i.dst % REGISTER_COUNT) as nat)
            + ", "@ + spec_uint_str(i.imm32 as nat),
{
}

/// Rendering is deterministic: any two renderings of the same instruction
/// word under the same mnemonic are the same text.
pub proof fn lemma_render_deterministic(i: Instruction, m: Mnemonic, a: Seq<char>, b: Seq<char>)
    requires
        a == spec_render(i, m),
        b == spec_render(i, m),
    ensures
        a == b,
{
}

} // verus!
