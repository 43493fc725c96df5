use ironlight::disasm::render;
use ironlight::distribution::OpcodeDistribution;
use ironlight::instruction::Instruction;
use ironlight::mnemonic::Mnemonic;
use ironlight::numtext::{i32_to_string, u32_to_string};

#[test]
fn unsigned_decimal_text() {
    assert_eq!(u32_to_string(0), "0");
    assert_eq!(u32_to_string(7), "7");
    assert_eq!(u32_to_string(10), "10");
    assert_eq!(u32_to_string(256), "256");
    assert_eq!(u32_to_string(4294967295), "4294967295");
}

#[test]
fn signed_decimal_text() {
    assert_eq!(i32_to_string(0), "0");
    assert_eq!(i32_to_string(42), "42");
    assert_eq!(i32_to_string(-4), "-4");
    assert_eq!(i32_to_string(i32::MIN), "-2147483648");
    assert_eq!(i32_to_string(i32::MAX), "2147483647");
}

#[test]
fn two_register_family() {
    let i = Instruction::new(0, 10, 3, 0, 0);
    assert_eq!(render(&i, Mnemonic::IAddRs), "IADD_RS r2, r3");
    assert_eq!(render(&i, Mnemonic::FMulR), "FMUL_R r2, r3");
}

#[test]
fn register_memory_family() {
    let i = Instruction::new(0, 10, 3, 0, 0);
    assert_eq!(render(&i, Mnemonic::IAddM), "IADD_M r2, [r3]");
    assert_eq!(render(&i, Mnemonic::FDivM), "FDIV_M r2, [r3]");
}

#[test]
fn subtract_immediate_fallback() {
    // Differing reduced indices: the two-register form.
    let differ = Instruction::new(0, 1, 2, 0, 4294967292);
    assert_eq!(render(&differ, Mnemonic::ISubR), "ISUB_R r1, r2");

    // Raw bytes differ but reduce to the same index modulo the register
    // count: the immediate fallback, with the raw unsigned operand.
    let coincide = Instruction::new(0, 9, 1, 0, 4294967292);
    assert_eq!(render(&coincide, Mnemonic::ISubR), "ISUB_R r1, 4294967292");
}

#[test]
fn store_family_signed_immediate() {
    let i = Instruction::new(0, 9, 2, 0b0000_0001, 4294967292);
    assert_eq!(render(&i, Mnemonic::IStore), "ISTORE L1[r1 -4], r2");

    let positive = Instruction::new(0, 9, 2, 0b0000_0001, 4);
    assert_eq!(render(&positive, Mnemonic::IStore), "ISTORE L1[r1 4], r2");

    let l2 = Instruction::new(0, 9, 2, 0b0000_0000, 4);
    assert_eq!(render(&l2, Mnemonic::IStore), "ISTORE L2[r1 4], r2");

    let l3 = Instruction::new(0, 9, 2, 0b1110_0001, 4);
    assert_eq!(render(&l3, Mnemonic::IStore), "ISTORE L3[r1 4], r2");
}

#[test]
fn branch_round_negate_nop() {
    let i = Instruction::new(0, 9, 2, 0, 4294967292);
    assert_eq!(render(&i, Mnemonic::CBranch), "CBRANCH 4294967292");
    // CFROUND and INEG_R print the raw dst byte, not a reduced index.
    assert_eq!(render(&i, Mnemonic::CFround), "CFROUND 9");
    assert_eq!(render(&i, Mnemonic::INegR), "INEG_R r9");
    assert_eq!(render(&i, Mnemonic::Nop), "NOP");
}

#[test]
fn end_to_end_istore() {
    let d = OpcodeDistribution::new();
    // Opcode 240 is the first ISTORE slot of the declared distribution.
    let m = d.mnemonic_for(240);
    assert_eq!(m, Mnemonic::IStore);
    assert_eq!(m.name(), "ISTORE");
    let i = Instruction::new(240, 9, 2, 0b0000_0001, 4294967292);
    assert_eq!(d.disassemble(&i), "ISTORE L1[r1 -4], r2");
}

#[test]
fn render_idempotent() {
    let d = OpcodeDistribution::new();
    let i = Instruction::new(240, 9, 2, 0b0000_0001, 4294967292);
    assert_eq!(d.disassemble(&i), d.disassemble(&i));
    let j = Instruction::new(0, 10, 3, 0b10110101, 77);
    assert_eq!(render(&j, Mnemonic::IAddRs), render(&j, Mnemonic::IAddRs));
}

#[test]
fn every_opcode_renders() {
    let d = OpcodeDistribution::new();
    for op in 0..=255u8 {
        let i = Instruction::new(op, 11, 6, 0b0101_1010, 123456789);
        let text = d.disassemble(&i);
        assert!(!text.is_empty());
        assert!(text.starts_with(d.mnemonic_for(op).name()));
    }
}
