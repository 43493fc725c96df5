use vstd::prelude::*;

verus! {

/// The closed set of operation mnemonics an opcode byte can select.
#[derive(Clone, Copy, Debug, PartialEq, Eq, Structural)]
pub enum Mnemonic {
    IAddRs,
    IAddM,
    ISubR,
    ISubM,
    IMulR,
    IMulM,
    IMulhR,
    IMulhM,
    ISmulhR,
    ISmulhM,
    IMulRcp,
    INegR,
    IXorR,
    IXorM,
    IRorR,
    IRolR,
    ISwapR,
    FSwapR,
    FAddR,
    FAddM,
    FSubR,
    FSubM,
    FScalR,
    FMulR,
    FDivM,
    FSqrtR,
    CBranch,
    CFround,
    IStore,
    Nop,
}

/// Assembly text of a mnemonic.
pub open spec fn spec_name(m: Mnemonic) -> Seq<char> {
    match m {
        Mnemonic::IAddRs => "IADD_RS"@,
        Mnemonic::IAddM => "IADD_M"@,
        Mnemonic::ISubR => "ISUB_R"@,
        Mnemonic::ISubM => "ISUB_M"@,
        Mnemonic::IMulR => "IMUL_R"@,
        Mnemonic::IMulM => "IMUL_M"@,
        Mnemonic::IMulhR => "IMULH_R"@,
        Mnemonic::IMulhM => "IMULH_M"@,
        Mnemonic::ISmulhR => "ISMULH_R"@,
        Mnemonic::ISmulhM => "ISMULH_M"@,
        Mnemonic::IMulRcp => "IMUL_RCP"@,
        Mnemonic::INegR => "INEG_R"@,
        Mnemonic::IXorR => "IXOR_R"@,
        Mnemonic::IXorM => "IXOR_M"@,
        Mnemonic::IRorR => "IROR_R"@,
        Mnemonic::IRolR => "IROL_R"@,
        Mnemonic::ISwapR => "ISWAP_R"@,
        Mnemonic::FSwapR => "FSWAP_R"@,
        Mnemonic::FAddR => "FADD_R"@,
        Mnemonic::FAddM => "FADD_M"@,
        Mnemonic::FSubR => "FSUB_R"@,
        Mnemonic::FSubM => "FSUB_M"@,
        Mnemonic::FScalR => "FSCAL_R"@,
        Mnemonic::FMulR => "FMUL_R"@,
        Mnemonic::FDivM => "FDIV_M"@,
        Mnemonic::FSqrtR => "FSQRT_R"@,
        Mnemonic::CBranch => "CBRANCH"@,
        Mnemonic::CFround => "CFROUND"@,
        Mnemonic::IStore => "ISTORE"@,
        Mnemonic::Nop => "NOP"@,
    }
}

/// Which disassembly template a mnemonic's family uses: one tag per
/// rendering rule, so the renderer dispatches once instead of comparing
/// text.
#[derive(Clone, Copy, Debug, PartialEq, Eq, Structural)]
pub enum RenderFamily {
    /// `"<MNEMONIC> r<dst>, r<src>"` with register indices reduced modulo
    /// the register count.
    TwoReg,
    /// `"<MNEMONIC> r<dst>, [r<src>]"` with reduced register indices.
    RegMem,
    /// The subtract special case: the two-register form unless the reduced
    /// indices coincide, then `"ISUB_R r<dst>, <immediate>"`.
    SubSpecial,
    /// `"ISTORE <space>[r<dst> <signed-immediate>], r<src>"`.
    Store,
    /// `"CBRANCH <immediate>"` with the raw unsigned operand.
    Branch,
    /// `"CFROUND <dst>"` with the raw `dst` byte (a rounding mode, not a
    /// register).
    RoundControl,
    /// `"INEG_R r<dst>"` with the raw `dst` byte.
    Negate,
    /// `"NOP"`.
    NoOp,
}

/// The rendering family of each mnemonic.
pub open spec fn spec_family(m: Mnemonic) -> RenderFamily {
    match m {
        Mnemonic::ISubR => RenderFamily::SubSpecial,
        Mnemonic::IStore => RenderFamily::Store,
        Mnemonic::CBranch => RenderFamily::Branch,
        Mnemonic::CFround => RenderFamily::RoundControl,
        Mnemonic::INegR => RenderFamily::Negate,
        Mnemonic::Nop => RenderFamily::NoOp,
        Mnemonic::IAddRs => RenderFamily::TwoReg,
        Mnemonic::IMulR => RenderFamily::TwoReg,
        Mnemonic::IMulhR => RenderFamily::TwoReg,
        Mnemonic::ISmulhR => RenderFamily::TwoReg,
        Mnemonic::IMulRcp => RenderFamily::TwoReg,
        Mnemonic::IXorR => RenderFamily::TwoReg,
        Mnemonic::IRorR => RenderFamily::TwoReg,
        Mnemonic::IRolR => RenderFamily::TwoReg,
        Mnemonic::ISwapR => RenderFamily::TwoReg,
        Mnemonic::FSwapR => RenderFamily::TwoReg,
        Mnemonic::FAddR => RenderFamily::TwoReg,
        Mnemonic::FSubR => RenderFamily::TwoReg,
        Mnemonic::FScalR => RenderFamily::TwoReg,
        Mnemonic::FMulR => RenderFamily::TwoReg,
        Mnemonic::FSqrtR => RenderFamily::TwoReg,
        Mnemonic::IAddM => RenderFamily::RegMem,
        Mnemonic::ISubM => RenderFamily::RegMem,
        Mnemonic::IMulM => RenderFamily::RegMem,
        Mnemonic::IMulhM => RenderFamily::RegMem,
        Mnemonic::ISmulhM => RenderFamily::RegMem,
        Mnemonic::IXorM => RenderFamily::RegMem,
        Mnemonic::FSubM => RenderFamily::RegMem,
        Mnemonic::FAddM => RenderFamily::RegMem,
        Mnemonic::FDivM => RenderFamily::RegMem,
    }
}

impl Mnemonic {
    /// Assembly text of this mnemonic.
    pub fn name(self) -> (r: &'static str)
        ensures
            r@ == spec_name(self),
    {
        match self {
            Mnemonic::IAddRs => "IADD_RS",
            Mnemonic::IAddM => "IADD_M",
            Mnemonic::ISubR => "ISUB_R",
            Mnemonic::ISubM => "ISUB_M",
            Mnemonic::IMulR => "IMUL_R",
            Mnemonic::IMulM => "IMUL_M",
            Mnemonic::IMulhR => "IMULH_R",
            Mnemonic::IMulhM => "IMULH_M",
            Mnemonic::ISmulhR => "ISMULH_R",
            Mnemonic::ISmulhM => "ISMULH_M",
            Mnemonic::IMulRcp => "IMUL_RCP",
            Mnemonic::INegR => "INEG_R",
            Mnemonic::IXorR => "IXOR_R",
            Mnemonic::IXorM => "IXOR_M",
            Mnemonic::IRorR => "IROR_R",
            Mnemonic::IRolR => "IROL_R",
            Mnemonic::ISwapR => "ISWAP_R",
            Mnemonic::FSwapR => "FSWAP_R",
            Mnemonic::FAddR => "FADD_R",
            Mnemonic::FAddM => "FADD_M",
            Mnemonic::FSubR => "FSUB_R",
            Mnemonic::FSubM => "FSUB_M",
            Mnemonic::FScalR => "FSCAL_R",
            Mnemonic::FMulR => "FMUL_R",
            Mnemonic::FDivM => "FDIV_M",
            Mnemonic::FSqrtR => "FSQRT_R",
            Mnemonic::CBranch => "CBRANCH",
            Mnemonic::CFround => "CFROUND",
            Mnemonic::IStore => "ISTORE",
            Mnemonic::Nop => "NOP",
        }
    }

    /// The rendering family this mnemonic belongs to.
    pub fn family(self) -> (r: RenderFamily)
        ensures
            r == spec_family(self),
    {
        match self {
            Mnemonic::ISubR => RenderFamily::SubSpecial,
            Mnemonic::IStore => RenderFamily::Store,
            Mnemonic::CBranch => RenderFamily::Branch,
            Mnemonic::CFround => RenderFamily::RoundControl,
            Mnemonic::INegR => RenderFamily::Negate,
            Mnemonic::Nop => RenderFamily::NoOp,
            Mnemonic::IAddRs | Mnemonic::IMulR | Mnemonic::IMulhR | Mnemonic::ISmulhR
            | Mnemonic::IMulRcp | Mnemonic::IXorR | Mnemonic::IRorR | Mnemonic::IRolR
            | Mnemonic::ISwapR | Mnemonic::FSwapR | Mnemonic::FAddR | Mnemonic::FSubR
            | Mnemonic::FScalR | Mnemonic::FMulR | Mnemonic::FSqrtR => RenderFamily::TwoReg,
            Mnemonic::IAddM | Mnemonic::ISubM | Mnemonic::IMulM | Mnemonic::IMulhM
            | Mnemonic::ISmulhM | Mnemonic::IXorM | Mnemonic::FSubM | Mnemonic::FAddM
            | Mnemonic::FDivM => RenderFamily::RegMem,
        }
    }
}

/// Every mnemonic has non-empty assembly text.
pub proof fn lemma_names_nonempty()
    ensures
        forall|m: Mnemonic| (#[trigger] spec_name(m)).len() > 0,
{
    reveal_strlit("IADD_RS");
    reveal_strlit("IADD_M");
    reveal_strlit("ISUB_R");
    reveal_strlit("ISUB_M");
    reveal_strlit("IMUL_R");
    reveal_strlit("IMUL_M");
    reveal_strlit("IMULH_R");
    reveal_strlit("IMULH_M");
    reveal_strlit("ISMULH_R");
    reveal_strlit("ISMULH_M");
    reveal_strlit("IMUL_RCP");
    reveal_strlit("INEG_R");
    reveal_strlit("IXOR_R");
    reveal_strlit("IXOR_M");
    reveal_strlit("IROR_R");
    reveal_strlit("IROL_R");
    reveal_strlit("ISWAP_R");
    reveal_strlit("FSWAP_R");
    reveal_strlit("FADD_R");
    reveal_strlit("FADD_M");
    reveal_strlit("FSUB_R");
    reveal_strlit("FSUB_M");
    reveal_strlit("FSCAL_R");
    reveal_strlit("FMUL_R");
    reveal_strlit("FDIV_M");
    reveal_strlit("FSQRT_R");
    reveal_strlit("CBRANCH");
    reveal_strlit("CFROUND");
    reveal_strlit("ISTORE");
    reveal_strlit("NOP");
}

} // verus!
