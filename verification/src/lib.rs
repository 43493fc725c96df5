pub mod constants;
pub mod disasm;
pub mod distribution;
pub mod instruction;
pub mod mnemonic;
pub mod numtext;
