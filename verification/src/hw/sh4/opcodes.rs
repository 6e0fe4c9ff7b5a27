//! The SH-4 instruction table: which instruction each 16-bit opcode is.
use super::decoder::{lemma_opcode_fields, InstructionOpcode};
use super::alu::{law_tst_changes_no_register, op_m, op_n};
use super::cpu::CpuModel;
use super::execute::register_step;
use vstd::prelude::*;

verus! {

/// An SH-4 instruction, named after the routine that carries it out.
#[derive(Copy, Clone, Debug, PartialEq, Eq, Structural)]
pub enum Sh4Instruction {
    Mov,
    Movi,
    Mova,
    Movwi,
    Movli,
    Movbl,
    Movwl,
    Movll,
    Movbs,
    Movws,
    Movls,
    Movbp,
    Movwp,
    Movlp,
    Movbm,
    Movwm,
    Movlm,
    Movbl4,
    Movwl4,
    Movll4,
    Movbs4,
    Movws4,
    Movls4,
    Movbl0,
    Movwl0,
    Movll0,
    Movbs0,
    Movws0,
    Movls0,
    Movblg,
    Movwlg,
    Movllg,
    Movbsg,
    Movwsg,
    Movlsg,
    Movt,
    Swapb,
    Swapw,
    Xtrct,
    Add,
    Addi,
    Addc,
    CompareImm,
    CompareEq,
    CompareHs,
    CompareGe,
    CompareHi,
    CompareGt,
    ComparePl,
    ComparePz,
    CompareStr,
    Div0s,
    Div0u,
    Div1,
    Dmulu2,
    Dmulu,
    Dt,
    Extsb,
    Extsw,
    Extub,
    Extuw,
    Macl,
    Macw,
    Mulu,
    Muls,
    Mul,
    Neg,
    Negc,
    Sub,
    Subc,
    And,
    Andi,
    Not,
    Or,
    Ori,
    Orm,
    Tas,
    Tst,
    Tsti,
    Xor,
    Xori,
    Rotcl,
    Rotcr,
    Rotl,
    Rotr,
    Shad,
    Shar,
    Shld,
    Shll,
    Shll2,
    Shll8,
    Shll16,
    Shlr,
    Shlr2,
    Shlr8,
    Shlr16,
    BranchIfFalse,
    BranchIfFalseDelayed,
    BranchIfTrue,
    BranchIfTrueDelayed,
    Bra,
    Braf,
    Bsr,
    Bsrf,
    Jmp,
    Jsr,
    Rts,
    Clrs,
    Clrt,
    LdcSr,
    LdcSpc,
    LdcmSr,
    LdcGbr,
    LdsmGbr,
    LdcVbr,
    LdcmVbr,
    LdcSsr,
    LdcmSsr,
    LdcmSpc,
    LdcDbr,
    LdcmDbr,
    LdcmRmbank,
    LdcrnRmbank,
    Ldsmach,
    LdsmMach,
    Ldsmacl,
    LdsmMacl,
    Ldspr,
    LdsmPr,
    Movcal,
    Nop,
    Pref,
    Rte,
    Sett,
    Sleep,
    StcSr,
    StcmSr,
    StcGbr,
    StcmGbr,
    StcVbr,
    StcmVbr,
    StcmSsr,
    StcmSpc,
    StcDbr,
    StcRmbank,
    StcmRmbank,
    StsMach,
    Stsmmach,
    StsMacl,
    Stsmmacl,
    StsPr,
    Stsmpr,
    Fcnvsd,
    Fcnvds,
    Fmov,
    FmovLoad,
    FmovStore,
    FmovRestore,
    FmovSave,
    FmovIndexLoad,
    FmovIndexStore,
    Fldi0,
    Fldi1,
    Flds,
    Fsts,
    Fabs,
    Fneg,
    Fadd,
    Fsub,
    Fmul,
    Fmac,
    Fdiv,
    Fsqrt,
    FcompareEq,
    FcompareGt,
    Float,
    Ftrc,
    Fipr,
    Ftrv,
    Fsrra,
    Fsca,
    LdsFpscr,
    StsFpscr,
    LdsmFpscr,
    StsmFpscr,
    Ldsfpul,
    StsFpul,
    LdsmFpul,
    StcmFpul,
    Frchg,
    Fschg,
    /// An opcode that no row of the table matches.
    Unk,
}

/// A row of the instruction table: an opcode is this instruction when it
/// equals `pattern` outside the bits of `mask` (its operand fields).
#[derive(Copy, Clone, Debug)]
pub struct DecodeRow {
    pub pattern: u16,
    pub mask: u16,
    pub instruction: Sh4Instruction,
    pub disassembly: &'static str,
}

/// A decoded opcode: the opcode, the text of its instruction and the
/// instruction.
#[derive(Copy, Clone, Debug)]
pub struct DecodedInstruction {
    pub opcode: InstructionOpcode,
    pub disassembly: &'static str,
    pub instruction: Sh4Instruction,
}

/// The number of rows of the instruction table.
pub const NUM_ROWS: usize = 194;

/// Whether `text` is the table's name for instruction `i`: one name per
/// instruction, except that `Nop` also stands for the cache-block operations
/// OCBI, OCBP and OCBWB, which it carries out as nothing.
pub open spec fn names(i: Sh4Instruction, text: &str) -> bool {
    match i {
        Sh4Instruction::Mov => text == "mov Rm, Rn",
        Sh4Instruction::Movi => text == "movi #imm, Rn",
        Sh4Instruction::Mova => text == "mova @(disp8, PC), r0",
        Sh4Instruction::Movwi => text == "movwi",
        Sh4Instruction::Movli => text == "mov.l @(disp8+PC), Rn",
        Sh4Instruction::Movbl => text == "movbl",
        Sh4Instruction::Movwl => text == "movwl",
        Sh4Instruction::Movll => text == "movll",
        Sh4Instruction::Movbs => text == "movbs",
        Sh4Instruction::Movws => text == "movws",
        Sh4Instruction::Movls => text == "mov.l Rm, @Rn",
        Sh4Instruction::Movbp => text == "mov.b @Rm+, Rn",
        Sh4Instruction::Movwp => text == "movwp",
        Sh4Instruction::Movlp => text == "mov.l @Rm+, Rn",
        Sh4Instruction::Movbm => text == "movbm",
        Sh4Instruction::Movwm => text == "movwm",
        Sh4Instruction::Movlm => text == "movlm",
        Sh4Instruction::Movbl4 => text == "mov.b @(disp4, Rm), r0",
        Sh4Instruction::Movwl4 => text == "movwl4",
        Sh4Instruction::Movll4 => text == "movll4",
        Sh4Instruction::Movbs4 => text == "movbs4",
        Sh4Instruction::Movws4 => text == "movws4",
        Sh4Instruction::Movls4 => text == "movls4",
        Sh4Instruction::Movbl0 => text == "mov.b @(r0, Rm), Rn",
        Sh4Instruction::Movwl0 => text == "movwl0",
        Sh4Instruction::Movll0 => text == "movll0",
        Sh4Instruction::Movbs0 => text == "mov.b Rm, @(r0, Rn)",
        Sh4Instruction::Movws0 => text == "movws0",
        Sh4Instruction::Movls0 => text == "movls0",
        Sh4Instruction::Movblg => text == "movblg",
        Sh4Instruction::Movwlg => text == "movwlg",
        Sh4Instruction::Movllg => text == "mov.l @(disp8, gbr), r0",
        Sh4Instruction::Movbsg => text == "movbsg",
        Sh4Instruction::Movwsg => text == "movwsg",
        Sh4Instruction::Movlsg => text == "movlsg",
        Sh4Instruction::Movt => text == "movt",
        Sh4Instruction::Swapb => text == "swap.b",
        Sh4Instruction::Swapw => text == "swap.w",
        Sh4Instruction::Xtrct => text == "xtrct",
        Sh4Instruction::Add => text == "add",
        Sh4Instruction::Addi => text == "add #imm",
        Sh4Instruction::Addc => text == "addc",
        Sh4Instruction::CompareImm => text == "cmp/eq #imm",
        Sh4Instruction::CompareEq => text == "cmp/eq",
        Sh4Instruction::CompareHs => text == "cmp/hs",
        Sh4Instruction::CompareGe => text == "cmp/ge",
        Sh4Instruction::CompareHi => text == "cmp/hi",
        Sh4Instruction::CompareGt => text == "cmp/gt",
        Sh4Instruction::ComparePl => text == "cmp/pl",
        Sh4Instruction::ComparePz => text == "cmp/pz",
        Sh4Instruction::CompareStr => text == "cmp/str",
        Sh4Instruction::Div0s => text == "div0s",
        Sh4Instruction::Div0u => text == "div0u",
        Sh4Instruction::Div1 => text == "div1",
        Sh4Instruction::Dmulu2 => text == "dmuls.l",
        Sh4Instruction::Dmulu => text == "dmulu.l",
        Sh4Instruction::Dt => text == "dt",
        Sh4Instruction::Extsb => text == "exts.b",
        Sh4Instruction::Extsw => text == "exts.w",
        Sh4Instruction::Extub => text == "extu.b",
        Sh4Instruction::Extuw => text == "extu.w",
        Sh4Instruction::Macl => text == "mac.l @Rm+,@Rn+",
        Sh4Instruction::Macw => text == "mac.w @Rm+,@Rn+",
        Sh4Instruction::Mulu => text == "mulu.w",
        Sh4Instruction::Muls => text == "muls",
        Sh4Instruction::Mul => text == "mull",
        Sh4Instruction::Neg => text == "neg",
        Sh4Instruction::Negc => text == "negc",
        Sh4Instruction::Sub => text == "sub",
        Sh4Instruction::Subc => text == "subc",
        Sh4Instruction::And => text == "and",
        Sh4Instruction::Andi => text == "and #imm",
        Sh4Instruction::Not => text == "not",
        Sh4Instruction::Or => text == "or",
        Sh4Instruction::Ori => text == "or #imm",
        Sh4Instruction::Orm => text == "orm",
        Sh4Instruction::Tas => text == "tas.b @Rn",
        Sh4Instruction::Tst => text == "tst",
        Sh4Instruction::Tsti => text == "tst #imm",
        Sh4Instruction::Xor => text == "xor",
        Sh4Instruction::Xori => text == "xor #imm",
        Sh4Instruction::Rotcl => text == "rotcl",
        Sh4Instruction::Rotcr => text == "rotcr",
        Sh4Instruction::Rotl => text == "rotl",
        Sh4Instruction::Rotr => text == "rotr",
        Sh4Instruction::Shad => text == "shad",
        Sh4Instruction::Shar => text == "shar",
        Sh4Instruction::Shld => text == "shld",
        Sh4Instruction::Shll => text == "shll",
        Sh4Instruction::Shll2 => text == "shll2",
        Sh4Instruction::Shll8 => text == "shll8",
        Sh4Instruction::Shll16 => text == "shll16",
        Sh4Instruction::Shlr => text == "shlr",
        Sh4Instruction::Shlr2 => text == "shlr2",
        Sh4Instruction::Shlr8 => text == "shlr8",
        Sh4Instruction::Shlr16 => text == "shlr16",
        Sh4Instruction::BranchIfFalse => text == "bf label:8",
        Sh4Instruction::BranchIfFalseDelayed => text == "bf/s label:8",
        Sh4Instruction::BranchIfTrue => text == "bt label:8",
        Sh4Instruction::BranchIfTrueDelayed => text == "bt/s label:8",
        Sh4Instruction::Bra => text == "bra label:12",
        Sh4Instruction::Braf => text == "braf",
        Sh4Instruction::Bsr => text == "bsr label:12",
        Sh4Instruction::Bsrf => text == "bsrf",
        Sh4Instruction::Jmp => text == "jmp",
        Sh4Instruction::Jsr => text == "jsr",
        Sh4Instruction::Rts => text == "rts",
        Sh4Instruction::Clrs => text == "clrs",
        Sh4Instruction::Clrt => text == "clrt",
        Sh4Instruction::LdcSr => text == "ldc Rn,SR",
        Sh4Instruction::LdcSpc => text == "ldc Rn,SPC",
        Sh4Instruction::LdcmSr => text == "ldc.l @Rn+,SR",
        Sh4Instruction::LdcGbr => text == "ldc Rn,GBR",
        Sh4Instruction::LdsmGbr => text == "ldc.l @Rn+,GBR",
        Sh4Instruction::LdcVbr => text == "ldc Rn,VBR",
        Sh4Instruction::LdcmVbr => text == "ldc.l @Rn+,VBR",
        Sh4Instruction::LdcSsr => text == "ldc Rn,SSR",
        Sh4Instruction::LdcmSsr => text == "ldc.l @Rn+,SSR",
        Sh4Instruction::LdcmSpc => text == "ldc.l @Rn+,SPC",
        Sh4Instruction::LdcDbr => text == "ldc Rn,DBR",
        Sh4Instruction::LdcmDbr => text == "ldc.l @Rn+,DBR",
        Sh4Instruction::LdcmRmbank => text == "ldc.l @Rn+,Rm_BANK",
        Sh4Instruction::LdcrnRmbank => text == "ldc Rn,Rm_BANK",
        Sh4Instruction::Ldsmach => text == "lds Rn,MACH",
        Sh4Instruction::LdsmMach => text == "lds.l @Rn+,MACH",
        Sh4Instruction::Ldsmacl => text == "lds Rn,MACL",
        Sh4Instruction::LdsmMacl => text == "lds.l @Rn+,MACL",
        Sh4Instruction::Ldspr => text == "lds Rn,PR",
        Sh4Instruction::LdsmPr => text == "lds.l @Rn+,PR",
        Sh4Instruction::Movcal => text == "movca.l",
        Sh4Instruction::Nop => text == "nop" || text == "ocbi" || text == "ocbp" || text == "ocbwb",
        Sh4Instruction::Pref => text == "pref",
        Sh4Instruction::Rte => text == "rte",
        Sh4Instruction::Sett => text == "sett",
        Sh4Instruction::Sleep => text == "sleep",
        Sh4Instruction::StcSr => text == "stc SR,Rn",
        Sh4Instruction::StcmSr => text == "stc.l SR,@-Rn",
        Sh4Instruction::StcGbr => text == "stc GBR,Rn",
        Sh4Instruction::StcmGbr => text == "stc.l GBR,@-Rn",
        Sh4Instruction::StcVbr => text == "stc VBR,Rn",
        Sh4Instruction::StcmVbr => text == "stc.l VBR,@-Rn",
        Sh4Instruction::StcmSsr => text == "stc.l SSR,@-Rn",
        Sh4Instruction::StcmSpc => text == "stc.l SPC,@-Rn",
        Sh4Instruction::StcDbr => text == "stc DBR,Rn",
        Sh4Instruction::StcRmbank => text == "stc Rm_BANK,Rn",
        Sh4Instruction::StcmRmbank => text == "stc.l Rm_BANK,@-Rn",
        Sh4Instruction::StsMach => text == "sts MACH,Rn",
        Sh4Instruction::Stsmmach => text == "sts.l MACH,@-Rn",
        Sh4Instruction::StsMacl => text == "sts MACL,Rn",
        Sh4Instruction::Stsmmacl => text == "sts.l MACL,@-Rn",
        Sh4Instruction::StsPr => text == "sts PR,Rn",
        Sh4Instruction::Stsmpr => text == "sts.l PR,@-Rn",
        Sh4Instruction::Fcnvsd => text == "fcnvsd",
        Sh4Instruction::Fcnvds => text == "fcnvds",
        Sh4Instruction::Fmov => text == "fmov FRm,FRn",
        Sh4Instruction::FmovLoad => text == "fmov.s @Rm,FRn",
        Sh4Instruction::FmovStore => text == "fmov.s FRm,@Rn",
        Sh4Instruction::FmovRestore => text == "fmov.s @Rm+,FRn",
        Sh4Instruction::FmovSave => text == "fmov.s FRm,@-Rn",
        Sh4Instruction::FmovIndexLoad => text == "fmov.s @(R0,Rm),FRn",
        Sh4Instruction::FmovIndexStore => text == "fmov.s FRm,@(R0,Rn)",
        Sh4Instruction::Fldi0 => text == "fldi0",
        Sh4Instruction::Fldi1 => text == "fldi1",
        Sh4Instruction::Flds => text == "flds",
        Sh4Instruction::Fsts => text == "fsts",
        Sh4Instruction::Fabs => text == "fabs",
        Sh4Instruction::Fneg => text == "fneg",
        Sh4Instruction::Fadd => text == "fadd",
        Sh4Instruction::Fsub => text == "fsub",
        Sh4Instruction::Fmul => text == "fmul",
        Sh4Instruction::Fmac => text == "fmac",
        Sh4Instruction::Fdiv => text == "fdiv",
        Sh4Instruction::Fsqrt => text == "fsqrt",
        Sh4Instruction::FcompareEq => text == "fcmp/eq",
        Sh4Instruction::FcompareGt => text == "fcmp/gt",
        Sh4Instruction::Float => text == "float",
        Sh4Instruction::Ftrc => text == "ftrc",
        Sh4Instruction::Fipr => text == "fipr",
        Sh4Instruction::Ftrv => text == "ftrv",
        Sh4Instruction::Fsrra => text == "fsrra",
        Sh4Instruction::Fsca => text == "fsca",
        Sh4Instruction::LdsFpscr => text == "lds Rn,FPSCR",
        Sh4Instruction::StsFpscr => text == "sts FPSCR,Rn",
        Sh4Instruction::LdsmFpscr => text == "lds.l @Rn+,FPSCR",
        Sh4Instruction::StsmFpscr => text == "sts.l FPSCR,@-Rn",
        Sh4Instruction::Ldsfpul => text == "lds Rn,FPUL",
        Sh4Instruction::StsFpul => text == "sts FPUL,Rn",
        Sh4Instruction::LdsmFpul => text == "lds.l @Rn+,FPUL",
        Sh4Instruction::StcmFpul => text == "sts.l FPUL,@-Rn",
        Sh4Instruction::Frchg => text == "frchg",
        Sh4Instruction::Fschg => text == "fschg",
        Sh4Instruction::Unk => text == "unk",
    }
}

/// Row `k` of the instruction table.
pub open spec fn row(k: int) -> DecodeRow {
    if k == 0 {
        DecodeRow { pattern: 0x6003, mask: 0x0FF0, instruction: Sh4Instruction::Mov, disassembly: "mov Rm, Rn" }
    } else if k == 1 {
        DecodeRow { pattern: 0xE000, mask: 0x0FFF, instruction: Sh4Instruction::Movi, disassembly: "movi #imm, Rn" }
    } else if k == 2 {
        DecodeRow { pattern: 0xC700, mask: 0x00FF, instruction: Sh4Instruction::Mova, disassembly: "mova @(disp8, PC), r0" }
    } else if k == 3 {
        DecodeRow { pattern: 0x9000, mask: 0x0FFF, instruction: Sh4Instruction::Movwi, disassembly: "movwi" }
    } else if k == 4 {
        DecodeRow { pattern: 0xD000, mask: 0x0FFF, instruction: Sh4Instruction::Movli, disassembly: "mov.l @(disp8+PC), Rn" }
    } else if k == 5 {
        DecodeRow { pattern: 0x6000, mask: 0x0FF0, instruction: Sh4Instruction::Movbl, disassembly: "movbl" }
    } else if k == 6 {
        DecodeRow { pattern: 0x6001, mask: 0x0FF0, instruction: Sh4Instruction::Movwl, disassembly: "movwl" }
    } else if k == 7 {
        DecodeRow { pattern: 0x6002, mask: 0x0FF0, instruction: Sh4Instruction::Movll, disassembly: "movll" }
    } else if k == 8 {
        DecodeRow { pattern: 0x2000, mask: 0x0FF0, instruction: Sh4Instruction::Movbs, disassembly: "movbs" }
    } else if k == 9 {
        DecodeRow { pattern: 0x2001, mask: 0x0FF0, instruction: Sh4Instruction::Movws, disassembly: "movws" }
    } else if k == 10 {
        DecodeRow { pattern: 0x2002, mask: 0x0FF0, instruction: Sh4Instruction::Movls, disassembly: "mov.l Rm, @Rn" }
    } else if k == 11 {
        DecodeRow { pattern: 0x6004, mask: 0x0FF0, instruction: Sh4Instruction::Movbp, disassembly: "mov.b @Rm+, Rn" }
    } else if k == 12 {
        DecodeRow { pattern: 0x6005, mask: 0x0FF0, instruction: Sh4Instruction::Movwp, disassembly: "movwp" }
    } else if k == 13 {
        DecodeRow { pattern: 0x6006, mask: 0x0FF0, instruction: Sh4Instruction::Movlp, disassembly: "mov.l @Rm+, Rn" }
    } else if k == 14 {
        DecodeRow { pattern: 0x2004, mask: 0x0FF0, instruction: Sh4Instruction::Movbm, disassembly: "movbm" }
    } else if k == 15 {
        DecodeRow { pattern: 0x2005, mask: 0x0FF0, instruction: Sh4Instruction::Movwm, disassembly: "movwm" }
    } else if k == 16 {
        DecodeRow { pattern: 0x2006, mask: 0x0FF0, instruction: Sh4Instruction::Movlm, disassembly: "movlm" }
    } else if k == 17 {
        DecodeRow { pattern: 0x8400, mask: 0x00FF, instruction: Sh4Instruction::Movbl4, disassembly: "mov.b @(disp4, Rm), r0" }
    } else if k == 18 {
        DecodeRow { pattern: 0x8500, mask: 0x00FF, instruction: Sh4Instruction::Movwl4, disassembly: "movwl4" }
    } else if k == 19 {
        DecodeRow { pattern: 0x5000, mask: 0x0FFF, instruction: Sh4Instruction::Movll4, disassembly: "movll4" }
    } else if k == 20 {
        DecodeRow { pattern: 0x8000, mask: 0x00FF, instruction: Sh4Instruction::Movbs4, disassembly: "movbs4" }
    } else if k == 21 {
        DecodeRow { pattern: 0x8100, mask: 0x00FF, instruction: Sh4Instruction::Movws4, disassembly: "movws4" }
    } else if k == 22 {
        DecodeRow { pattern: 0x1000, mask: 0x0FFF, instruction: Sh4Instruction::Movls4, disassembly: "movls4" }
    } else if k == 23 {
        DecodeRow { pattern: 0x000C, mask: 0x0FF0, instruction: Sh4Instruction::Movbl0, disassembly: "mov.b @(r0, Rm), Rn" }
    } else if k == 24 {
        DecodeRow { pattern: 0x000D, mask: 0x0FF0, instruction: Sh4Instruction::Movwl0, disassembly: "movwl0" }
    } else if k == 25 {
        DecodeRow { pattern: 0x000E, mask: 0x0FF0, instruction: Sh4Instruction::Movll0, disassembly: "movll0" }
    } else if k == 26 {
        DecodeRow { pattern: 0x0004, mask: 0x0FF0, instruction: Sh4Instruction::Movbs0, disassembly: "mov.b Rm, @(r0, Rn)" }
    } else if k == 27 {
        DecodeRow { pattern: 0x0005, mask: 0x0FF0, instruction: Sh4Instruction::Movws0, disassembly: "movws0" }
    } else if k == 28 {
        DecodeRow { pattern: 0x0006, mask: 0x0FF0, instruction: Sh4Instruction::Movls0, disassembly: "movls0" }
    } else if k == 29 {
        DecodeRow { pattern: 0xC400, mask: 0x00FF, instruction: Sh4Instruction::Movblg, disassembly: "movblg" }
    } else if k == 30 {
        DecodeRow { pattern: 0xC500, mask: 0x00FF, instruction: Sh4Instruction::Movwlg, disassembly: "movwlg" }
    } else if k == 31 {
        DecodeRow { pattern: 0xC600, mask: 0x00FF, instruction: Sh4Instruction::Movllg, disassembly: "mov.l @(disp8, gbr), r0" }
    } else if k == 32 {
        DecodeRow { pattern: 0xC000, mask: 0x00FF, instruction: Sh4Instruction::Movbsg, disassembly: "movbsg" }
    } else if k == 33 {
        DecodeRow { pattern: 0xC100, mask: 0x00FF, instruction: Sh4Instruction::Movwsg, disassembly: "movwsg" }
    } else if k == 34 {
        DecodeRow { pattern: 0xC200, mask: 0x00FF, instruction: Sh4Instruction::Movlsg, disassembly: "movlsg" }
    } else if k == 35 {
        DecodeRow { pattern: 0x0029, mask: 0x0F00, instruction: Sh4Instruction::Movt, disassembly: "movt" }
    } else if k == 36 {
        DecodeRow { pattern: 0x6008, mask: 0x0FF0, instruction: Sh4Instruction::Swapb, disassembly: "swap.b" }
    } else if k == 37 {
        DecodeRow { pattern: 0x6009, mask: 0x0FF0, instruction: Sh4Instruction::Swapw, disassembly: "swap.w" }
    } else if k == 38 {
        DecodeRow { pattern: 0x200D, mask: 0x0FF0, instruction: Sh4Instruction::Xtrct, disassembly: "xtrct" }
    } else if k == 39 {
        DecodeRow { pattern: 0x300C, mask: 0x0FF0, instruction: Sh4Instruction::Add, disassembly: "add" }
    } else if k == 40 {
        DecodeRow { pattern: 0x7000, mask: 0x0FFF, instruction: Sh4Instruction::Addi, disassembly: "add #imm" }
    } else if k == 41 {
        DecodeRow { pattern: 0x300E, mask: 0x0FF0, instruction: Sh4Instruction::Addc, disassembly: "addc" }
    } else if k == 42 {
        DecodeRow { pattern: 0x8800, mask: 0x00FF, instruction: Sh4Instruction::CompareImm, disassembly: "cmp/eq #imm" }
    } else if k == 43 {
        DecodeRow { pattern: 0x3000, mask: 0x0FF0, instruction: Sh4Instruction::CompareEq, disassembly: "cmp/eq" }
    } else if k == 44 {
        DecodeRow { pattern: 0x3002, mask: 0x0FF0, instruction: Sh4Instruction::CompareHs, disassembly: "cmp/hs" }
    } else if k == 45 {
        DecodeRow { pattern: 0x3003, mask: 0x0FF0, instruction: Sh4Instruction::CompareGe, disassembly: "cmp/ge" }
    } else if k == 46 {
        DecodeRow { pattern: 0x3006, mask: 0x0FF0, instruction: Sh4Instruction::CompareHi, disassembly: "cmp/hi" }
    } else if k == 47 {
        DecodeRow { pattern: 0x3007, mask: 0x0FF0, instruction: Sh4Instruction::CompareGt, disassembly: "cmp/gt" }
    } else if k == 48 {
        DecodeRow { pattern: 0x4015, mask: 0x0F00, instruction: Sh4Instruction::ComparePl, disassembly: "cmp/pl" }
    } else if k == 49 {
        DecodeRow { pattern: 0x4011, mask: 0x0F00, instruction: Sh4Instruction::ComparePz, disassembly: "cmp/pz" }
    } else if k == 50 {
        DecodeRow { pattern: 0x200C, mask: 0x0FF0, instruction: Sh4Instruction::CompareStr, disassembly: "cmp/str" }
    } else if k == 51 {
        DecodeRow { pattern: 0x2007, mask: 0x0FF0, instruction: Sh4Instruction::Div0s, disassembly: "div0s" }
    } else if k == 52 {
        DecodeRow { pattern: 0x0019, mask: 0x0000, instruction: Sh4Instruction::Div0u, disassembly: "div0u" }
    } else if k == 53 {
        DecodeRow { pattern: 0x3004, mask: 0x0FF0, instruction: Sh4Instruction::Div1, disassembly: "div1" }
    } else if k == 54 {
        DecodeRow { pattern: 0x300D, mask: 0x0FF0, instruction: Sh4Instruction::Dmulu2, disassembly: "dmuls.l" }
    } else if k == 55 {
        DecodeRow { pattern: 0x3005, mask: 0x0FF0, instruction: Sh4Instruction::Dmulu, disassembly: "dmulu.l" }
    } else if k == 56 {
        DecodeRow { pattern: 0x4010, mask: 0x0F00, instruction: Sh4Instruction::Dt, disassembly: "dt" }
    } else if k == 57 {
        DecodeRow { pattern: 0x600E, mask: 0x0FF0, instruction: Sh4Instruction::Extsb, disassembly: "exts.b" }
    } else if k == 58 {
        DecodeRow { pattern: 0x600F, mask: 0x0FF0, instruction: Sh4Instruction::Extsw, disassembly: "exts.w" }
    } else if k == 59 {
        DecodeRow { pattern: 0x600C, mask: 0x0FF0, instruction: Sh4Instruction::Extub, disassembly: "extu.b" }
    } else if k == 60 {
        DecodeRow { pattern: 0x600D, mask: 0x0FF0, instruction: Sh4Instruction::Extuw, disassembly: "extu.w" }
    } else if k == 61 {
        DecodeRow { pattern: 0x000F, mask: 0x0FF0, instruction: Sh4Instruction::Macl, disassembly: "mac.l @Rm+,@Rn+" }
    } else if k == 62 {
        DecodeRow { pattern: 0x400F, mask: 0x0FF0, instruction: Sh4Instruction::Macw, disassembly: "mac.w @Rm+,@Rn+" }
    } else if k == 63 {
        DecodeRow { pattern: 0x200E, mask: 0x0FF0, instruction: Sh4Instruction::Mulu, disassembly: "mulu.w" }
    } else if k == 64 {
        DecodeRow { pattern: 0x200F, mask: 0x0FF0, instruction: Sh4Instruction::Muls, disassembly: "muls" }
    } else if k == 65 {
        DecodeRow { pattern: 0x0007, mask: 0x0FF0, instruction: Sh4Instruction::Mul, disassembly: "mull" }
    } else if k == 66 {
        DecodeRow { pattern: 0x600B, mask: 0x0FF0, instruction: Sh4Instruction::Neg, disassembly: "neg" }
    } else if k == 67 {
        DecodeRow { pattern: 0x600A, mask: 0x0FF0, instruction: Sh4Instruction::Negc, disassembly: "negc" }
    } else if k == 68 {
        DecodeRow { pattern: 0x3008, mask: 0x0FF0, instruction: Sh4Instruction::Sub, disassembly: "sub" }
    } else if k == 69 {
        DecodeRow { pattern: 0x300A, mask: 0x0FF0, instruction: Sh4Instruction::Subc, disassembly: "subc" }
    } else if k == 70 {
        DecodeRow { pattern: 0x2009, mask: 0x0FF0, instruction: Sh4Instruction::And, disassembly: "and" }
    } else if k == 71 {
        DecodeRow { pattern: 0xC900, mask: 0x00FF, instruction: Sh4Instruction::Andi, disassembly: "and #imm" }
    } else if k == 72 {
        DecodeRow { pattern: 0x6007, mask: 0x0FF0, instruction: Sh4Instruction::Not, disassembly: "not" }
    } else if k == 73 {
        DecodeRow { pattern: 0x200B, mask: 0x0FF0, instruction: Sh4Instruction::Or, disassembly: "or" }
    } else if k == 74 {
        DecodeRow { pattern: 0xCB00, mask: 0x00FF, instruction: Sh4Instruction::Ori, disassembly: "or #imm" }
    } else if k == 75 {
        DecodeRow { pattern: 0xCF00, mask: 0x00FF, instruction: Sh4Instruction::Orm, disassembly: "orm" }
    } else if k == 76 {
        DecodeRow { pattern: 0x401B, mask: 0x0F00, instruction: Sh4Instruction::Tas, disassembly: "tas.b @Rn" }
    } else if k == 77 {
        DecodeRow { pattern: 0x2008, mask: 0x0FF0, instruction: Sh4Instruction::Tst, disassembly: "tst" }
    } else if k == 78 {
        DecodeRow { pattern: 0xC800, mask: 0x00FF, instruction: Sh4Instruction::Tsti, disassembly: "tst #imm" }
    } else if k == 79 {
        DecodeRow { pattern: 0x200A, mask: 0x0FF0, instruction: Sh4Instruction::Xor, disassembly: "xor" }
    } else if k == 80 {
        DecodeRow { pattern: 0xCA00, mask: 0x00FF, instruction: Sh4Instruction::Xori, disassembly: "xor #imm" }
    } else if k == 81 {
        DecodeRow { pattern: 0x4024, mask: 0x0F00, instruction: Sh4Instruction::Rotcl, disassembly: "rotcl" }
    } else if k == 82 {
        DecodeRow { pattern: 0x4025, mask: 0x0F00, instruction: Sh4Instruction::Rotcr, disassembly: "rotcr" }
    } else if k == 83 {
        DecodeRow { pattern: 0x4004, mask: 0x0F00, instruction: Sh4Instruction::Rotl, disassembly: "rotl" }
    } else if k == 84 {
        DecodeRow { pattern: 0x4005, mask: 0x0F00, instruction: Sh4Instruction::Rotr, disassembly: "rotr" }
    } else if k == 85 {
        DecodeRow { pattern: 0x400C, mask: 0x0FF0, instruction: Sh4Instruction::Shad, disassembly: "shad" }
    } else if k == 86 {
        DecodeRow { pattern: 0x4021, mask: 0x0F00, instruction: Sh4Instruction::Shar, disassembly: "shar" }
    } else if k == 87 {
        DecodeRow { pattern: 0x400D, mask: 0x0FF0, instruction: Sh4Instruction::Shld, disassembly: "shld" }
    } else if k == 88 {
        DecodeRow { pattern: 0x4000, mask: 0x0F00, instruction: Sh4Instruction::Shll, disassembly: "shll" }
    } else if k == 89 {
        DecodeRow { pattern: 0x4008, mask: 0x0F00, instruction: Sh4Instruction::Shll2, disassembly: "shll2" }
    } else if k == 90 {
        DecodeRow { pattern: 0x4018, mask: 0x0F00, instruction: Sh4Instruction::Shll8, disassembly: "shll8" }
    } else if k == 91 {
        DecodeRow { pattern: 0x4028, mask: 0x0F00, instruction: Sh4Instruction::Shll16, disassembly: "shll16" }
    } else if k == 92 {
        DecodeRow { pattern: 0x4001, mask: 0x0F00, instruction: Sh4Instruction::Shlr, disassembly: "shlr" }
    } else if k == 93 {
        DecodeRow { pattern: 0x4009, mask: 0x0F00, instruction: Sh4Instruction::Shlr2, disassembly: "shlr2" }
    } else if k == 94 {
        DecodeRow { pattern: 0x4019, mask: 0x0F00, instruction: Sh4Instruction::Shlr8, disassembly: "shlr8" }
    } else if k == 95 {
        DecodeRow { pattern: 0x4029, mask: 0x0F00, instruction: Sh4Instruction::Shlr16, disassembly: "shlr16" }
    } else if k == 96 {
        DecodeRow { pattern: 0x8B00, mask: 0x00FF, instruction: Sh4Instruction::BranchIfFalse, disassembly: "bf label:8" }
    } else if k == 97 {
        DecodeRow { pattern: 0x8F00, mask: 0x00FF, instruction: Sh4Instruction::BranchIfFalseDelayed, disassembly: "bf/s label:8" }
    } else if k == 98 {
        DecodeRow { pattern: 0x8900, mask: 0x00FF, instruction: Sh4Instruction::BranchIfTrue, disassembly: "bt label:8" }
    } else if k == 99 {
        DecodeRow { pattern: 0x8D00, mask: 0x00FF, instruction: Sh4Instruction::BranchIfTrueDelayed, disassembly: "bt/s label:8" }
    } else if k == 100 {
        DecodeRow { pattern: 0xA000, mask: 0x0FFF, instruction: Sh4Instruction::Bra, disassembly: "bra label:12" }
    } else if k == 101 {
        DecodeRow { pattern: 0x0023, mask: 0x0F00, instruction: Sh4Instruction::Braf, disassembly: "braf" }
    } else if k == 102 {
        DecodeRow { pattern: 0xB000, mask: 0x0FFF, instruction: Sh4Instruction::Bsr, disassembly: "bsr label:12" }
    } else if k == 103 {
        DecodeRow { pattern: 0x0003, mask: 0x0F00, instruction: Sh4Instruction::Bsrf, disassembly: "bsrf" }
    } else if k == 104 {
        DecodeRow { pattern: 0x402B, mask: 0x0F00, instruction: Sh4Instruction::Jmp, disassembly: "jmp" }
    } else if k == 105 {
        DecodeRow { pattern: 0x400B, mask: 0x0F00, instruction: Sh4Instruction::Jsr, disassembly: "jsr" }
    } else if k == 106 {
        DecodeRow { pattern: 0x000B, mask: 0x0000, instruction: Sh4Instruction::Rts, disassembly: "rts" }
    } else if k == 107 {
        DecodeRow { pattern: 0x0048, mask: 0x0000, instruction: Sh4Instruction::Clrs, disassembly: "clrs" }
    } else if k == 108 {
        DecodeRow { pattern: 0x0008, mask: 0x0000, instruction: Sh4Instruction::Clrt, disassembly: "clrt" }
    } else if k == 109 {
        DecodeRow { pattern: 0x400E, mask: 0x0F00, instruction: Sh4Instruction::LdcSr, disassembly: "ldc Rn,SR" }
    } else if k == 110 {
        DecodeRow { pattern: 0x404E, mask: 0x0F00, instruction: Sh4Instruction::LdcSpc, disassembly: "ldc Rn,SPC" }
    } else if k == 111 {
        DecodeRow { pattern: 0x4007, mask: 0x0F00, instruction: Sh4Instruction::LdcmSr, disassembly: "ldc.l @Rn+,SR" }
    } else if k == 112 {
        DecodeRow { pattern: 0x401E, mask: 0x0F00, instruction: Sh4Instruction::LdcGbr, disassembly: "ldc Rn,GBR" }
    } else if k == 113 {
        DecodeRow { pattern: 0x4017, mask: 0x0F00, instruction: Sh4Instruction::LdsmGbr, disassembly: "ldc.l @Rn+,GBR" }
    } else if k == 114 {
        DecodeRow { pattern: 0x402E, mask: 0x0F00, instruction: Sh4Instruction::LdcVbr, disassembly: "ldc Rn,VBR" }
    } else if k == 115 {
        DecodeRow { pattern: 0x4027, mask: 0x0F00, instruction: Sh4Instruction::LdcmVbr, disassembly: "ldc.l @Rn+,VBR" }
    } else if k == 116 {
        DecodeRow { pattern: 0x403E, mask: 0x0F00, instruction: Sh4Instruction::LdcSsr, disassembly: "ldc Rn,SSR" }
    } else if k == 117 {
        DecodeRow { pattern: 0x4037, mask: 0x0F00, instruction: Sh4Instruction::LdcmSsr, disassembly: "ldc.l @Rn+,SSR" }
    } else if k == 118 {
        DecodeRow { pattern: 0x4047, mask: 0x0F00, instruction: Sh4Instruction::LdcmSpc, disassembly: "ldc.l @Rn+,SPC" }
    } else if k == 119 {
        DecodeRow { pattern: 0x40FA, mask: 0x0F00, instruction: Sh4Instruction::LdcDbr, disassembly: "ldc Rn,DBR" }
    } else if k == 120 {
        DecodeRow { pattern: 0x40F6, mask: 0x0F00, instruction: Sh4Instruction::LdcmDbr, disassembly: "ldc.l @Rn+,DBR" }
    } else if k == 121 {
        DecodeRow { pattern: 0x4087, mask: 0x0F70, instruction: Sh4Instruction::LdcmRmbank, disassembly: "ldc.l @Rn+,Rm_BANK" }
    } else if k == 122 {
        DecodeRow { pattern: 0x408E, mask: 0x0F70, instruction: Sh4Instruction::LdcrnRmbank, disassembly: "ldc Rn,Rm_BANK" }
    } else if k == 123 {
        DecodeRow { pattern: 0x400A, mask: 0x0F00, instruction: Sh4Instruction::Ldsmach, disassembly: "lds Rn,MACH" }
    } else if k == 124 {
        DecodeRow { pattern: 0x4006, mask: 0x0F00, instruction: Sh4Instruction::LdsmMach, disassembly: "lds.l @Rn+,MACH" }
    } else if k == 125 {
        DecodeRow { pattern: 0x401A, mask: 0x0F00, instruction: Sh4Instruction::Ldsmacl, disassembly: "lds Rn,MACL" }
    } else if k == 126 {
        DecodeRow { pattern: 0x4016, mask: 0x0F00, instruction: Sh4Instruction::LdsmMacl, disassembly: "lds.l @Rn+,MACL" }
    } else if k == 127 {
        DecodeRow { pattern: 0x402A, mask: 0x0F00, instruction: Sh4Instruction::Ldspr, disassembly: "lds Rn,PR" }
    } else if k == 128 {
        DecodeRow { pattern: 0x4026, mask: 0x0F00, instruction: Sh4Instruction::LdsmPr, disassembly: "lds.l @Rn+,PR" }
    } else if k == 129 {
        DecodeRow { pattern: 0x00C3, mask: 0x0F00, instruction: Sh4Instruction::Movcal, disassembly: "movca.l" }
    } else if k == 130 {
        DecodeRow { pattern: 0x0009, mask: 0x0000, instruction: Sh4Instruction::Nop, disassembly: "nop" }
    } else if k == 131 {
        DecodeRow { pattern: 0x0093, mask: 0x0F00, instruction: Sh4Instruction::Nop, disassembly: "ocbi" }
    } else if k == 132 {
        DecodeRow { pattern: 0x00A3, mask: 0x0F00, instruction: Sh4Instruction::Nop, disassembly: "ocbp" }
    } else if k == 133 {
        DecodeRow { pattern: 0x00B3, mask: 0x0F00, instruction: Sh4Instruction::Nop, disassembly: "ocbwb" }
    } else if k == 134 {
        DecodeRow { pattern: 0x0083, mask: 0x0F00, instruction: Sh4Instruction::Pref, disassembly: "pref" }
    } else if k == 135 {
        DecodeRow { pattern: 0x002B, mask: 0x0000, instruction: Sh4Instruction::Rte, disassembly: "rte" }
    } else if k == 136 {
        DecodeRow { pattern: 0x0018, mask: 0x0000, instruction: Sh4Instruction::Sett, disassembly: "sett" }
    } else if k == 137 {
        DecodeRow { pattern: 0x001B, mask: 0x0000, instruction: Sh4Instruction::Sleep, disassembly: "sleep" }
    } else if k == 138 {
        DecodeRow { pattern: 0x0002, mask: 0x0F00, instruction: Sh4Instruction::StcSr, disassembly: "stc SR,Rn" }
    } else if k == 139 {
        DecodeRow { pattern: 0x4003, mask: 0x0F00, instruction: Sh4Instruction::StcmSr, disassembly: "stc.l SR,@-Rn" }
    } else if k == 140 {
        DecodeRow { pattern: 0x0012, mask: 0x0F00, instruction: Sh4Instruction::StcGbr, disassembly: "stc GBR,Rn" }
    } else if k == 141 {
        DecodeRow { pattern: 0x4013, mask: 0x0F00, instruction: Sh4Instruction::StcmGbr, disassembly: "stc.l GBR,@-Rn" }
    } else if k == 142 {
        DecodeRow { pattern: 0x0022, mask: 0x0F00, instruction: Sh4Instruction::StcVbr, disassembly: "stc VBR,Rn" }
    } else if k == 143 {
        DecodeRow { pattern: 0x4023, mask: 0x0F00, instruction: Sh4Instruction::StcmVbr, disassembly: "stc.l VBR,@-Rn" }
    } else if k == 144 {
        DecodeRow { pattern: 0x4033, mask: 0x0F00, instruction: Sh4Instruction::StcmSsr, disassembly: "stc.l SSR,@-Rn" }
    } else if k == 145 {
        DecodeRow { pattern: 0x4043, mask: 0x0F00, instruction: Sh4Instruction::StcmSpc, disassembly: "stc.l SPC,@-Rn" }
    } else if k == 146 {
        DecodeRow { pattern: 0x00FA, mask: 0x0F00, instruction: Sh4Instruction::StcDbr, disassembly: "stc DBR,Rn" }
    } else if k == 147 {
        DecodeRow { pattern: 0x0082, mask: 0x0F70, instruction: Sh4Instruction::StcRmbank, disassembly: "stc Rm_BANK,Rn" }
    } else if k == 148 {
        DecodeRow { pattern: 0x4083, mask: 0x0F70, instruction: Sh4Instruction::StcmRmbank, disassembly: "stc.l Rm_BANK,@-Rn" }
    } else if k == 149 {
        DecodeRow { pattern: 0x000A, mask: 0x0F00, instruction: Sh4Instruction::StsMach, disassembly: "sts MACH,Rn" }
    } else if k == 150 {
        DecodeRow { pattern: 0x4002, mask: 0x0F00, instruction: Sh4Instruction::Stsmmach, disassembly: "sts.l MACH,@-Rn" }
    } else if k == 151 {
        DecodeRow { pattern: 0x001A, mask: 0x0F00, instruction: Sh4Instruction::StsMacl, disassembly: "sts MACL,Rn" }
    } else if k == 152 {
        DecodeRow { pattern: 0x4012, mask: 0x0F00, instruction: Sh4Instruction::Stsmmacl, disassembly: "sts.l MACL,@-Rn" }
    } else if k == 153 {
        DecodeRow { pattern: 0x002A, mask: 0x0F00, instruction: Sh4Instruction::StsPr, disassembly: "sts PR,Rn" }
    } else if k == 154 {
        DecodeRow { pattern: 0x4022, mask: 0x0F00, instruction: Sh4Instruction::Stsmpr, disassembly: "sts.l PR,@-Rn" }
    } else if k == 155 {
        DecodeRow { pattern: 0xF0AD, mask: 0x0E00, instruction: Sh4Instruction::Fcnvsd, disassembly: "fcnvsd" }
    } else if k == 156 {
        DecodeRow { pattern: 0xF0BD, mask: 0x0E00, instruction: Sh4Instruction::Fcnvds, disassembly: "fcnvds" }
    } else if k == 157 {
        DecodeRow { pattern: 0xF00C, mask: 0x0FF0, instruction: Sh4Instruction::Fmov, disassembly: "fmov FRm,FRn" }
    } else if k == 158 {
        DecodeRow { pattern: 0xF008, mask: 0x0FF0, instruction: Sh4Instruction::FmovLoad, disassembly: "fmov.s @Rm,FRn" }
    } else if k == 159 {
        DecodeRow { pattern: 0xF00A, mask: 0x0FF0, instruction: Sh4Instruction::FmovStore, disassembly: "fmov.s FRm,@Rn" }
    } else if k == 160 {
        DecodeRow { pattern: 0xF009, mask: 0x0FF0, instruction: Sh4Instruction::FmovRestore, disassembly: "fmov.s @Rm+,FRn" }
    } else if k == 161 {
        DecodeRow { pattern: 0xF00B, mask: 0x0FF0, instruction: Sh4Instruction::FmovSave, disassembly: "fmov.s FRm,@-Rn" }
    } else if k == 162 {
        DecodeRow { pattern: 0xF006, mask: 0x0FF0, instruction: Sh4Instruction::FmovIndexLoad, disassembly: "fmov.s @(R0,Rm),FRn" }
    } else if k == 163 {
        DecodeRow { pattern: 0xF007, mask: 0x0FF0, instruction: Sh4Instruction::FmovIndexStore, disassembly: "fmov.s FRm,@(R0,Rn)" }
    } else if k == 164 {
        DecodeRow { pattern: 0xF08D, mask: 0x0F00, instruction: Sh4Instruction::Fldi0, disassembly: "fldi0" }
    } else if k == 165 {
        DecodeRow { pattern: 0xF09D, mask: 0x0F00, instruction: Sh4Instruction::Fldi1, disassembly: "fldi1" }
    } else if k == 166 {
        DecodeRow { pattern: 0xF01D, mask: 0x0F00, instruction: Sh4Instruction::Flds, disassembly: "flds" }
    } else if k == 167 {
        DecodeRow { pattern: 0xF00D, mask: 0x0F00, instruction: Sh4Instruction::Fsts, disassembly: "fsts" }
    } else if k == 168 {
        DecodeRow { pattern: 0xF05D, mask: 0x0F00, instruction: Sh4Instruction::Fabs, disassembly: "fabs" }
    } else if k == 169 {
        DecodeRow { pattern: 0xF04D, mask: 0x0F00, instruction: Sh4Instruction::Fneg, disassembly: "fneg" }
    } else if k == 170 {
        DecodeRow { pattern: 0xF000, mask: 0x0FF0, instruction: Sh4Instruction::Fadd, disassembly: "fadd" }
    } else if k == 171 {
        DecodeRow { pattern: 0xF001, mask: 0x0FF0, instruction: Sh4Instruction::Fsub, disassembly: "fsub" }
    } else if k == 172 {
        DecodeRow { pattern: 0xF002, mask: 0x0FF0, instruction: Sh4Instruction::Fmul, disassembly: "fmul" }
    } else if k == 173 {
        DecodeRow { pattern: 0xF00E, mask: 0x0FF0, instruction: Sh4Instruction::Fmac, disassembly: "fmac" }
    } else if k == 174 {
        DecodeRow { pattern: 0xF003, mask: 0x0FF0, instruction: Sh4Instruction::Fdiv, disassembly: "fdiv" }
    } else if k == 175 {
        DecodeRow { pattern: 0xF06D, mask: 0x0F00, instruction: Sh4Instruction::Fsqrt, disassembly: "fsqrt" }
    } else if k == 176 {
        DecodeRow { pattern: 0xF004, mask: 0x0FF0, instruction: Sh4Instruction::FcompareEq, disassembly: "fcmp/eq" }
    } else if k == 177 {
        DecodeRow { pattern: 0xF005, mask: 0x0FF0, instruction: Sh4Instruction::FcompareGt, disassembly: "fcmp/gt" }
    } else if k == 178 {
        DecodeRow { pattern: 0xF02D, mask: 0x0F00, instruction: Sh4Instruction::Float, disassembly: "float" }
    } else if k == 179 {
        DecodeRow { pattern: 0xF03D, mask: 0x0F00, instruction: Sh4Instruction::Ftrc, disassembly: "ftrc" }
    } else if k == 180 {
        DecodeRow { pattern: 0xF0ED, mask: 0x0F00, instruction: Sh4Instruction::Fipr, disassembly: "fipr" }
    } else if k == 181 {
        DecodeRow { pattern: 0xF1FD, mask: 0x0C00, instruction: Sh4Instruction::Ftrv, disassembly: "ftrv" }
    } else if k == 182 {
        DecodeRow { pattern: 0xF07D, mask: 0x0F00, instruction: Sh4Instruction::Fsrra, disassembly: "fsrra" }
    } else if k == 183 {
        DecodeRow { pattern: 0xF0FD, mask: 0x0E00, instruction: Sh4Instruction::Fsca, disassembly: "fsca" }
    } else if k == 184 {
        DecodeRow { pattern: 0x406A, mask: 0x0F00, instruction: Sh4Instruction::LdsFpscr, disassembly: "lds Rn,FPSCR" }
    } else if k == 185 {
        DecodeRow { pattern: 0x006A, mask: 0x0F00, instruction: Sh4Instruction::StsFpscr, disassembly: "sts FPSCR,Rn" }
    } else if k == 186 {
        DecodeRow { pattern: 0x4066, mask: 0x0F00, instruction: Sh4Instruction::LdsmFpscr, disassembly: "lds.l @Rn+,FPSCR" }
    } else if k == 187 {
        DecodeRow { pattern: 0x4062, mask: 0x0F00, instruction: Sh4Instruction::StsmFpscr, disassembly: "sts.l FPSCR,@-Rn" }
    } else if k == 188 {
        DecodeRow { pattern: 0x405A, mask: 0x0F00, instruction: Sh4Instruction::Ldsfpul, disassembly: "lds Rn,FPUL" }
    } else if k == 189 {
        DecodeRow { pattern: 0x005A, mask: 0x0F00, instruction: Sh4Instruction::StsFpul, disassembly: "sts FPUL,Rn" }
    } else if k == 190 {
        DecodeRow { pattern: 0x4056, mask: 0x0F00, instruction: Sh4Instruction::LdsmFpul, disassembly: "lds.l @Rn+,FPUL" }
    } else if k == 191 {
        DecodeRow { pattern: 0x4052, mask: 0x0F00, instruction: Sh4Instruction::StcmFpul, disassembly: "sts.l FPUL,@-Rn" }
    } else if k == 192 {
        DecodeRow { pattern: 0xFBFD, mask: 0x0000, instruction: Sh4Instruction::Frchg, disassembly: "frchg" }
    } else {
        DecodeRow { pattern: 0xF3FD, mask: 0x0000, instruction: Sh4Instruction::Fschg, disassembly: "fschg" }
    }
}

/// Whether opcode `op` matches row `k`.
pub open spec fn row_matches(op: u16, k: int) -> bool {
    op & !row(k).mask == row(k).pattern
}

/// The first row, from row `k` on, that opcode `op` matches; `NUM_ROWS`
/// when none does.
pub open spec fn first_match(op: u16, k: int) -> int
    decreases NUM_ROWS - k,
{
    if k >= NUM_ROWS || k < 0 {
        NUM_ROWS as int
    } else if row_matches(op, k) {
        k
    } else {
        first_match(op, k + 1)
    }
}

/// The row an opcode decodes by: opcode 0 takes the first row; any other
/// opcode takes the first row it matches, or none.
pub open spec fn decode_row(op: u16) -> Option<DecodeRow> {
    if op == 0 {
        Some(row(0))
    } else if first_match(op, 0) < NUM_ROWS {
        Some(row(first_match(op, 0)))
    } else {
        None
    }
}

/// What opcode `op` decodes to: the instruction and text of its row, or
/// `Unk` and "unk" when no row matches.
pub open spec fn decode_spec(op: u16) -> DecodedInstruction {
    match decode_row(op) {
        Some(r) => DecodedInstruction { opcode: InstructionOpcode(op), disassembly: r.disassembly, instruction: r.instruction },
        None => DecodedInstruction { opcode: InstructionOpcode(op), disassembly: "unk", instruction: Sh4Instruction::Unk },
    }
}

proof fn lemma_first_match_bounds(op: u16, k: int)
    requires
        0 <= k <= NUM_ROWS,
    ensures
        k <= first_match(op, k) <= NUM_ROWS,
        first_match(op, k) < NUM_ROWS ==> row_matches(op, first_match(op, k)),
    decreases NUM_ROWS - k,
{
    if k < NUM_ROWS && !row_matches(op, k) {
        lemma_first_match_bounds(op, k + 1);
    }
}

/// Every opcode but 0 that decodes by a row matches that row's pattern
/// outside its operand bits, and matches no earlier row.
pub proof fn law_decode_matches_first_row(op: u16)
    requires
        op != 0,
        decode_row(op) is Some,
    ensures
        op & !decode_row(op)->0.mask == decode_row(op)->0.pattern,
        forall|k: int| 0 <= k < first_match(op, 0) ==> !row_matches(op, k),
{
    lemma_first_match_bounds(op, 0);
    lemma_first_match_skips(op, 0);
}

proof fn lemma_first_match_skips(op: u16, k: int)
    requires
        0 <= k <= NUM_ROWS,
    ensures
        forall|j: int| k <= j < first_match(op, k) ==> !row_matches(op, j),
    decreases NUM_ROWS - k,
{
    if k < NUM_ROWS && !row_matches(op, k) {
        lemma_first_match_skips(op, k + 1);
    }
}

/// Row `k` of the instruction table.
fn row_at(k: usize) -> (r: DecodeRow)
    requires
        k < NUM_ROWS,
    ensures
        r == row(k as int),
{
    match k {
        0 => DecodeRow { pattern: 0x6003, mask: 0x0FF0, instruction: Sh4Instruction::Mov, disassembly: "mov Rm, Rn" },
        1 => DecodeRow { pattern: 0xE000, mask: 0x0FFF, instruction: Sh4Instruction::Movi, disassembly: "movi #imm, Rn" },
        2 => DecodeRow { pattern: 0xC700, mask: 0x00FF, instruction: Sh4Instruction::Mova, disassembly: "mova @(disp8, PC), r0" },
        3 => DecodeRow { pattern: 0x9000, mask: 0x0FFF, instruction: Sh4Instruction::Movwi, disassembly: "movwi" },
        4 => DecodeRow { pattern: 0xD000, mask: 0x0FFF, instruction: Sh4Instruction::Movli, disassembly: "mov.l @(disp8+PC), Rn" },
        5 => DecodeRow { pattern: 0x6000, mask: 0x0FF0, instruction: Sh4Instruction::Movbl, disassembly: "movbl" },
        6 => DecodeRow { pattern: 0x6001, mask: 0x0FF0, instruction: Sh4Instruction::Movwl, disassembly: "movwl" },
        7 => DecodeRow { pattern: 0x6002, mask: 0x0FF0, instruction: Sh4Instruction::Movll, disassembly: "movll" },
        8 => DecodeRow { pattern: 0x2000, mask: 0x0FF0, instruction: Sh4Instruction::Movbs, disassembly: "movbs" },
        9 => DecodeRow { pattern: 0x2001, mask: 0x0FF0, instruction: Sh4Instruction::Movws, disassembly: "movws" },
        10 => DecodeRow { pattern: 0x2002, mask: 0x0FF0, instruction: Sh4Instruction::Movls, disassembly: "mov.l Rm, @Rn" },
        11 => DecodeRow { pattern: 0x6004, mask: 0x0FF0, instruction: Sh4Instruction::Movbp, disassembly: "mov.b @Rm+, Rn" },
        12 => DecodeRow { pattern: 0x6005, mask: 0x0FF0, instruction: Sh4Instruction::Movwp, disassembly: "movwp" },
        13 => DecodeRow { pattern: 0x6006, mask: 0x0FF0, instruction: Sh4Instruction::Movlp, disassembly: "mov.l @Rm+, Rn" },
        14 => DecodeRow { pattern: 0x2004, mask: 0x0FF0, instruction: Sh4Instruction::Movbm, disassembly: "movbm" },
        15 => DecodeRow { pattern: 0x2005, mask: 0x0FF0, instruction: Sh4Instruction::Movwm, disassembly: "movwm" },
        16 => DecodeRow { pattern: 0x2006, mask: 0x0FF0, instruction: Sh4Instruction::Movlm, disassembly: "movlm" },
        17 => DecodeRow { pattern: 0x8400, mask: 0x00FF, instruction: Sh4Instruction::Movbl4, disassembly: "mov.b @(disp4, Rm), r0" },
        18 => DecodeRow { pattern: 0x8500, mask: 0x00FF, instruction: Sh4Instruction::Movwl4, disassembly: "movwl4" },
        19 => DecodeRow { pattern: 0x5000, mask: 0x0FFF, instruction: Sh4Instruction::Movll4, disassembly: "movll4" },
        20 => DecodeRow { pattern: 0x8000, mask: 0x00FF, instruction: Sh4Instruction::Movbs4, disassembly: "movbs4" },
        21 => DecodeRow { pattern: 0x8100, mask: 0x00FF, instruction: Sh4Instruction::Movws4, disassembly: "movws4" },
        22 => DecodeRow { pattern: 0x1000, mask: 0x0FFF, instruction: Sh4Instruction::Movls4, disassembly: "movls4" },
        23 => DecodeRow { pattern: 0x000C, mask: 0x0FF0, instruction: Sh4Instruction::Movbl0, disassembly: "mov.b @(r0, Rm), Rn" },
        24 => DecodeRow { pattern: 0x000D, mask: 0x0FF0, instruction: Sh4Instruction::Movwl0, disassembly: "movwl0" },
        25 => DecodeRow { pattern: 0x000E, mask: 0x0FF0, instruction: Sh4Instruction::Movll0, disassembly: "movll0" },
        26 => DecodeRow { pattern: 0x0004, mask: 0x0FF0, instruction: Sh4Instruction::Movbs0, disassembly: "mov.b Rm, @(r0, Rn)" },
        27 => DecodeRow { pattern: 0x0005, mask: 0x0FF0, instruction: Sh4Instruction::Movws0, disassembly: "movws0" },
        28 => DecodeRow { pattern: 0x0006, mask: 0x0FF0, instruction: Sh4Instruction::Movls0, disassembly: "movls0" },
        29 => DecodeRow { pattern: 0xC400, mask: 0x00FF, instruction: Sh4Instruction::Movblg, disassembly: "movblg" },
        30 => DecodeRow { pattern: 0xC500, mask: 0x00FF, instruction: Sh4Instruction::Movwlg, disassembly: "movwlg" },
        31 => DecodeRow { pattern: 0xC600, mask: 0x00FF, instruction: Sh4Instruction::Movllg, disassembly: "mov.l @(disp8, gbr), r0" },
        32 => DecodeRow { pattern: 0xC000, mask: 0x00FF, instruction: Sh4Instruction::Movbsg, disassembly: "movbsg" },
        33 => DecodeRow { pattern: 0xC100, mask: 0x00FF, instruction: Sh4Instruction::Movwsg, disassembly: "movwsg" },
        34 => DecodeRow { pattern: 0xC200, mask: 0x00FF, instruction: Sh4Instruction::Movlsg, disassembly: "movlsg" },
        35 => DecodeRow { pattern: 0x0029, mask: 0x0F00, instruction: Sh4Instruction::Movt, disassembly: "movt" },
        36 => DecodeRow { pattern: 0x6008, mask: 0x0FF0, instruction: Sh4Instruction::Swapb, disassembly: "swap.b" },
        37 => DecodeRow { pattern: 0x6009, mask: 0x0FF0, instruction: Sh4Instruction::Swapw, disassembly: "swap.w" },
        38 => DecodeRow { pattern: 0x200D, mask: 0x0FF0, instruction: Sh4Instruction::Xtrct, disassembly: "xtrct" },
        39 => DecodeRow { pattern: 0x300C, mask: 0x0FF0, instruction: Sh4Instruction::Add, disassembly: "add" },
        40 => DecodeRow { pattern: 0x7000, mask: 0x0FFF, instruction: Sh4Instruction::Addi, disassembly: "add #imm" },
        41 => DecodeRow { pattern: 0x300E, mask: 0x0FF0, instruction: Sh4Instruction::Addc, disassembly: "addc" },
        42 => DecodeRow { pattern: 0x8800, mask: 0x00FF, instruction: Sh4Instruction::CompareImm, disassembly: "cmp/eq #imm" },
        43 => DecodeRow { pattern: 0x3000, mask: 0x0FF0, instruction: Sh4Instruction::CompareEq, disassembly: "cmp/eq" },
        44 => DecodeRow { pattern: 0x3002, mask: 0x0FF0, instruction: Sh4Instruction::CompareHs, disassembly: "cmp/hs" },
        45 => DecodeRow { pattern: 0x3003, mask: 0x0FF0, instruction: Sh4Instruction::CompareGe, disassembly: "cmp/ge" },
        46 => DecodeRow { pattern: 0x3006, mask: 0x0FF0, instruction: Sh4Instruction::CompareHi, disassembly: "cmp/hi" },
        47 => DecodeRow { pattern: 0x3007, mask: 0x0FF0, instruction: Sh4Instruction::CompareGt, disassembly: "cmp/gt" },
        48 => DecodeRow { pattern: 0x4015, mask: 0x0F00, instruction: Sh4Instruction::ComparePl, disassembly: "cmp/pl" },
        49 => DecodeRow { pattern: 0x4011, mask: 0x0F00, instruction: Sh4Instruction::ComparePz, disassembly: "cmp/pz" },
        50 => DecodeRow { pattern: 0x200C, mask: 0x0FF0, instruction: Sh4Instruction::CompareStr, disassembly: "cmp/str" },
        51 => DecodeRow { pattern: 0x2007, mask: 0x0FF0, instruction: Sh4Instruction::Div0s, disassembly: "div0s" },
        52 => DecodeRow { pattern: 0x0019, mask: 0x0000, instruction: Sh4Instruction::Div0u, disassembly: "div0u" },
        53 => DecodeRow { pattern: 0x3004, mask: 0x0FF0, instruction: Sh4Instruction::Div1, disassembly: "div1" },
        54 => DecodeRow { pattern: 0x300D, mask: 0x0FF0, instruction: Sh4Instruction::Dmulu2, disassembly: "dmuls.l" },
        55 => DecodeRow { pattern: 0x3005, mask: 0x0FF0, instruction: Sh4Instruction::Dmulu, disassembly: "dmulu.l" },
        56 => DecodeRow { pattern: 0x4010, mask: 0x0F00, instruction: Sh4Instruction::Dt, disassembly: "dt" },
        57 => DecodeRow { pattern: 0x600E, mask: 0x0FF0, instruction: Sh4Instruction::Extsb, disassembly: "exts.b" },
        58 => DecodeRow { pattern: 0x600F, mask: 0x0FF0, instruction: Sh4Instruction::Extsw, disassembly: "exts.w" },
        59 => DecodeRow { pattern: 0x600C, mask: 0x0FF0, instruction: Sh4Instruction::Extub, disassembly: "extu.b" },
        60 => DecodeRow { pattern: 0x600D, mask: 0x0FF0, instruction: Sh4Instruction::Extuw, disassembly: "extu.w" },
        61 => DecodeRow { pattern: 0x000F, mask: 0x0FF0, instruction: Sh4Instruction::Macl, disassembly: "mac.l @Rm+,@Rn+" },
        62 => DecodeRow { pattern: 0x400F, mask: 0x0FF0, instruction: Sh4Instruction::Macw, disassembly: "mac.w @Rm+,@Rn+" },
        63 => DecodeRow { pattern: 0x200E, mask: 0x0FF0, instruction: Sh4Instruction::Mulu, disassembly: "mulu.w" },
        64 => DecodeRow { pattern: 0x200F, mask: 0x0FF0, instruction: Sh4Instruction::Muls, disassembly: "muls" },
        65 => DecodeRow { pattern: 0x0007, mask: 0x0FF0, instruction: Sh4Instruction::Mul, disassembly: "mull" },
        66 => DecodeRow { pattern: 0x600B, mask: 0x0FF0, instruction: Sh4Instruction::Neg, disassembly: "neg" },
        67 => DecodeRow { pattern: 0x600A, mask: 0x0FF0, instruction: Sh4Instruction::Negc, disassembly: "negc" },
        68 => DecodeRow { pattern: 0x3008, mask: 0x0FF0, instruction: Sh4Instruction::Sub, disassembly: "sub" },
        69 => DecodeRow { pattern: 0x300A, mask: 0x0FF0, instruction: Sh4Instruction::Subc, disassembly: "subc" },
        70 => DecodeRow { pattern: 0x2009, mask: 0x0FF0, instruction: Sh4Instruction::And, disassembly: "and" },
        71 => DecodeRow { pattern: 0xC900, mask: 0x00FF, instruction: Sh4Instruction::Andi, disassembly: "and #imm" },
        72 => DecodeRow { pattern: 0x6007, mask: 0x0FF0, instruction: Sh4Instruction::Not, disassembly: "not" },
        73 => DecodeRow { pattern: 0x200B, mask: 0x0FF0, instruction: Sh4Instruction::Or, disassembly: "or" },
        74 => DecodeRow { pattern: 0xCB00, mask: 0x00FF, instruction: Sh4Instruction::Ori, disassembly: "or #imm" },
        75 => DecodeRow { pattern: 0xCF00, mask: 0x00FF, instruction: Sh4Instruction::Orm, disassembly: "orm" },
        76 => DecodeRow { pattern: 0x401B, mask: 0x0F00, instruction: Sh4Instruction::Tas, disassembly: "tas.b @Rn" },
        77 => DecodeRow { pattern: 0x2008, mask: 0x0FF0, instruction: Sh4Instruction::Tst, disassembly: "tst" },
        78 => DecodeRow { pattern: 0xC800, mask: 0x00FF, instruction: Sh4Instruction::Tsti, disassembly: "tst #imm" },
        79 => DecodeRow { pattern: 0x200A, mask: 0x0FF0, instruction: Sh4Instruction::Xor, disassembly: "xor" },
        80 => DecodeRow { pattern: 0xCA00, mask: 0x00FF, instruction: Sh4Instruction::Xori, disassembly: "xor #imm" },
        81 => DecodeRow { pattern: 0x4024, mask: 0x0F00, instruction: Sh4Instruction::Rotcl, disassembly: "rotcl" },
        82 => DecodeRow { pattern: 0x4025, mask: 0x0F00, instruction: Sh4Instruction::Rotcr, disassembly: "rotcr" },
        83 => DecodeRow { pattern: 0x4004, mask: 0x0F00, instruction: Sh4Instruction::Rotl, disassembly: "rotl" },
        84 => DecodeRow { pattern: 0x4005, mask: 0x0F00, instruction: Sh4Instruction::Rotr, disassembly: "rotr" },
        85 => DecodeRow { pattern: 0x400C, mask: 0x0FF0, instruction: Sh4Instruction::Shad, disassembly: "shad" },
        86 => DecodeRow { pattern: 0x4021, mask: 0x0F00, instruction: Sh4Instruction::Shar, disassembly: "shar" },
        87 => DecodeRow { pattern: 0x400D, mask: 0x0FF0, instruction: Sh4Instruction::Shld, disassembly: "shld" },
        88 => DecodeRow { pattern: 0x4000, mask: 0x0F00, instruction: Sh4Instruction::Shll, disassembly: "shll" },
        89 => DecodeRow { pattern: 0x4008, mask: 0x0F00, instruction: Sh4Instruction::Shll2, disassembly: "shll2" },
        90 => DecodeRow { pattern: 0x4018, mask: 0x0F00, instruction: Sh4Instruction::Shll8, disassembly: "shll8" },
        91 => DecodeRow { pattern: 0x4028, mask: 0x0F00, instruction: Sh4Instruction::Shll16, disassembly: "shll16" },
        92 => DecodeRow { pattern: 0x4001, mask: 0x0F00, instruction: Sh4Instruction::Shlr, disassembly: "shlr" },
        93 => DecodeRow { pattern: 0x4009, mask: 0x0F00, instruction: Sh4Instruction::Shlr2, disassembly: "shlr2" },
        94 => DecodeRow { pattern: 0x4019, mask: 0x0F00, instruction: Sh4Instruction::Shlr8, disassembly: "shlr8" },
        95 => DecodeRow { pattern: 0x4029, mask: 0x0F00, instruction: Sh4Instruction::Shlr16, disassembly: "shlr16" },
        96 => DecodeRow { pattern: 0x8B00, mask: 0x00FF, instruction: Sh4Instruction::BranchIfFalse, disassembly: "bf label:8" },
        97 => DecodeRow { pattern: 0x8F00, mask: 0x00FF, instruction: Sh4Instruction::BranchIfFalseDelayed, disassembly: "bf/s label:8" },
        98 => DecodeRow { pattern: 0x8900, mask: 0x00FF, instruction: Sh4Instruction::BranchIfTrue, disassembly: "bt label:8" },
        99 => DecodeRow { pattern: 0x8D00, mask: 0x00FF, instruction: Sh4Instruction::BranchIfTrueDelayed, disassembly: "bt/s label:8" },
        100 => DecodeRow { pattern: 0xA000, mask: 0x0FFF, instruction: Sh4Instruction::Bra, disassembly: "bra label:12" },
        101 => DecodeRow { pattern: 0x0023, mask: 0x0F00, instruction: Sh4Instruction::Braf, disassembly: "braf" },
        102 => DecodeRow { pattern: 0xB000, mask: 0x0FFF, instruction: Sh4Instruction::Bsr, disassembly: "bsr label:12" },
        103 => DecodeRow { pattern: 0x0003, mask: 0x0F00, instruction: Sh4Instruction::Bsrf, disassembly: "bsrf" },
        104 => DecodeRow { pattern: 0x402B, mask: 0x0F00, instruction: Sh4Instruction::Jmp, disassembly: "jmp" },
        105 => DecodeRow { pattern: 0x400B, mask: 0x0F00, instruction: Sh4Instruction::Jsr, disassembly: "jsr" },
        106 => DecodeRow { pattern: 0x000B, mask: 0x0000, instruction: Sh4Instruction::Rts, disassembly: "rts" },
        107 => DecodeRow { pattern: 0x0048, mask: 0x0000, instruction: Sh4Instruction::Clrs, disassembly: "clrs" },
        108 => DecodeRow { pattern: 0x0008, mask: 0x0000, instruction: Sh4Instruction::Clrt, disassembly: "clrt" },
        109 => DecodeRow { pattern: 0x400E, mask: 0x0F00, instruction: Sh4Instruction::LdcSr, disassembly: "ldc Rn,SR" },
        110 => DecodeRow { pattern: 0x404E, mask: 0x0F00, instruction: Sh4Instruction::LdcSpc, disassembly: "ldc Rn,SPC" },
        111 => DecodeRow { pattern: 0x4007, mask: 0x0F00, instruction: Sh4Instruction::LdcmSr, disassembly: "ldc.l @Rn+,SR" },
        112 => DecodeRow { pattern: 0x401E, mask: 0x0F00, instruction: Sh4Instruction::LdcGbr, disassembly: "ldc Rn,GBR" },
        113 => DecodeRow { pattern: 0x4017, mask: 0x0F00, instruction: Sh4Instruction::LdsmGbr, disassembly: "ldc.l @Rn+,GBR" },
        114 => DecodeRow { pattern: 0x402E, mask: 0x0F00, instruction: Sh4Instruction::LdcVbr, disassembly: "ldc Rn,VBR" },
        115 => DecodeRow { pattern: 0x4027, mask: 0x0F00, instruction: Sh4Instruction::LdcmVbr, disassembly: "ldc.l @Rn+,VBR" },
        116 => DecodeRow { pattern: 0x403E, mask: 0x0F00, instruction: Sh4Instruction::LdcSsr, disassembly: "ldc Rn,SSR" },
        117 => DecodeRow { pattern: 0x4037, mask: 0x0F00, instruction: Sh4Instruction::LdcmSsr, disassembly: "ldc.l @Rn+,SSR" },
        118 => DecodeRow { pattern: 0x4047, mask: 0x0F00, instruction: Sh4Instruction::LdcmSpc, disassembly: "ldc.l @Rn+,SPC" },
        119 => DecodeRow { pattern: 0x40FA, mask: 0x0F00, instruction: Sh4Instruction::LdcDbr, disassembly: "ldc Rn,DBR" },
        120 => DecodeRow { pattern: 0x40F6, mask: 0x0F00, instruction: Sh4Instruction::LdcmDbr, disassembly: "ldc.l @Rn+,DBR" },
        121 => DecodeRow { pattern: 0x4087, mask: 0x0F70, instruction: Sh4Instruction::LdcmRmbank, disassembly: "ldc.l @Rn+,Rm_BANK" },
        122 => DecodeRow { pattern: 0x408E, mask: 0x0F70, instruction: Sh4Instruction::LdcrnRmbank, disassembly: "ldc Rn,Rm_BANK" },
        123 => DecodeRow { pattern: 0x400A, mask: 0x0F00, instruction: Sh4Instruction::Ldsmach, disassembly: "lds Rn,MACH" },
        124 => DecodeRow { pattern: 0x4006, mask: 0x0F00, instruction: Sh4Instruction::LdsmMach, disassembly: "lds.l @Rn+,MACH" },
        125 => DecodeRow { pattern: 0x401A, mask: 0x0F00, instruction: Sh4Instruction::Ldsmacl, disassembly: "lds Rn,MACL" },
        126 => DecodeRow { pattern: 0x4016, mask: 0x0F00, instruction: Sh4Instruction::LdsmMacl, disassembly: "lds.l @Rn+,MACL" },
        127 => DecodeRow { pattern: 0x402A, mask: 0x0F00, instruction: Sh4Instruction::Ldspr, disassembly: "lds Rn,PR" },
        128 => DecodeRow { pattern: 0x4026, mask: 0x0F00, instruction: Sh4Instruction::LdsmPr, disassembly: "lds.l @Rn+,PR" },
        129 => DecodeRow { pattern: 0x00C3, mask: 0x0F00, instruction: Sh4Instruction::Movcal, disassembly: "movca.l" },
        130 => DecodeRow { pattern: 0x0009, mask: 0x0000, instruction: Sh4Instruction::Nop, disassembly: "nop" },
        131 => DecodeRow { pattern: 0x0093, mask: 0x0F00, instruction: Sh4Instruction::Nop, disassembly: "ocbi" },
        132 => DecodeRow { pattern: 0x00A3, mask: 0x0F00, instruction: Sh4Instruction::Nop, disassembly: "ocbp" },
        133 => DecodeRow { pattern: 0x00B3, mask: 0x0F00, instruction: Sh4Instruction::Nop, disassembly: "ocbwb" },
        134 => DecodeRow { pattern: 0x0083, mask: 0x0F00, instruction: Sh4Instruction::Pref, disassembly: "pref" },
        135 => DecodeRow { pattern: 0x002B, mask: 0x0000, instruction: Sh4Instruction::Rte, disassembly: "rte" },
        136 => DecodeRow { pattern: 0x0018, mask: 0x0000, instruction: Sh4Instruction::Sett, disassembly: "sett" },
        137 => DecodeRow { pattern: 0x001B, mask: 0x0000, instruction: Sh4Instruction::Sleep, disassembly: "sleep" },
        138 => DecodeRow { pattern: 0x0002, mask: 0x0F00, instruction: Sh4Instruction::StcSr, disassembly: "stc SR,Rn" },
        139 => DecodeRow { pattern: 0x4003, mask: 0x0F00, instruction: Sh4Instruction::StcmSr, disassembly: "stc.l SR,@-Rn" },
        140 => DecodeRow { pattern: 0x0012, mask: 0x0F00, instruction: Sh4Instruction::StcGbr, disassembly: "stc GBR,Rn" },
        141 => DecodeRow { pattern: 0x4013, mask: 0x0F00, instruction: Sh4Instruction::StcmGbr, disassembly: "stc.l GBR,@-Rn" },
        142 => DecodeRow { pattern: 0x0022, mask: 0x0F00, instruction: Sh4Instruction::StcVbr, disassembly: "stc VBR,Rn" },
        143 => DecodeRow { pattern: 0x4023, mask: 0x0F00, instruction: Sh4Instruction::StcmVbr, disassembly: "stc.l VBR,@-Rn" },
        144 => DecodeRow { pattern: 0x4033, mask: 0x0F00, instruction: Sh4Instruction::StcmSsr, disassembly: "stc.l SSR,@-Rn" },
        145 => DecodeRow { pattern: 0x4043, mask: 0x0F00, instruction: Sh4Instruction::StcmSpc, disassembly: "stc.l SPC,@-Rn" },
        146 => DecodeRow { pattern: 0x00FA, mask: 0x0F00, instruction: Sh4Instruction::StcDbr, disassembly: "stc DBR,Rn" },
        147 => DecodeRow { pattern: 0x0082, mask: 0x0F70, instruction: Sh4Instruction::StcRmbank, disassembly: "stc Rm_BANK,Rn" },
        148 => DecodeRow { pattern: 0x4083, mask: 0x0F70, instruction: Sh4Instruction::StcmRmbank, disassembly: "stc.l Rm_BANK,@-Rn" },
        149 => DecodeRow { pattern: 0x000A, mask: 0x0F00, instruction: Sh4Instruction::StsMach, disassembly: "sts MACH,Rn" },
        150 => DecodeRow { pattern: 0x4002, mask: 0x0F00, instruction: Sh4Instruction::Stsmmach, disassembly: "sts.l MACH,@-Rn" },
        151 => DecodeRow { pattern: 0x001A, mask: 0x0F00, instruction: Sh4Instruction::StsMacl, disassembly: "sts MACL,Rn" },
        152 => DecodeRow { pattern: 0x4012, mask: 0x0F00, instruction: Sh4Instruction::Stsmmacl, disassembly: "sts.l MACL,@-Rn" },
        153 => DecodeRow { pattern: 0x002A, mask: 0x0F00, instruction: Sh4Instruction::StsPr, disassembly: "sts PR,Rn" },
        154 => DecodeRow { pattern: 0x4022, mask: 0x0F00, instruction: Sh4Instruction::Stsmpr, disassembly: "sts.l PR,@-Rn" },
        155 => DecodeRow { pattern: 0xF0AD, mask: 0x0E00, instruction: Sh4Instruction::Fcnvsd, disassembly: "fcnvsd" },
        156 => DecodeRow { pattern: 0xF0BD, mask: 0x0E00, instruction: Sh4Instruction::Fcnvds, disassembly: "fcnvds" },
        157 => DecodeRow { pattern: 0xF00C, mask: 0x0FF0, instruction: Sh4Instruction::Fmov, disassembly: "fmov FRm,FRn" },
        158 => DecodeRow { pattern: 0xF008, mask: 0x0FF0, instruction: Sh4Instruction::FmovLoad, disassembly: "fmov.s @Rm,FRn" },
        159 => DecodeRow { pattern: 0xF00A, mask: 0x0FF0, instruction: Sh4Instruction::FmovStore, disassembly: "fmov.s FRm,@Rn" },
        160 => DecodeRow { pattern: 0xF009, mask: 0x0FF0, instruction: Sh4Instruction::FmovRestore, disassembly: "fmov.s @Rm+,FRn" },
        161 => DecodeRow { pattern: 0xF00B, mask: 0x0FF0, instruction: Sh4Instruction::FmovSave, disassembly: "fmov.s FRm,@-Rn" },
        162 => DecodeRow { pattern: 0xF006, mask: 0x0FF0, instruction: Sh4Instruction::FmovIndexLoad, disassembly: "fmov.s @(R0,Rm),FRn" },
        163 => DecodeRow { pattern: 0xF007, mask: 0x0FF0, instruction: Sh4Instruction::FmovIndexStore, disassembly: "fmov.s FRm,@(R0,Rn)" },
        164 => DecodeRow { pattern: 0xF08D, mask: 0x0F00, instruction: Sh4Instruction::Fldi0, disassembly: "fldi0" },
        165 => DecodeRow { pattern: 0xF09D, mask: 0x0F00, instruction: Sh4Instruction::Fldi1, disassembly: "fldi1" },
        166 => DecodeRow { pattern: 0xF01D, mask: 0x0F00, instruction: Sh4Instruction::Flds, disassembly: "flds" },
        167 => DecodeRow { pattern: 0xF00D, mask: 0x0F00, instruction: Sh4Instruction::Fsts, disassembly: "fsts" },
        168 => DecodeRow { pattern: 0xF05D, mask: 0x0F00, instruction: Sh4Instruction::Fabs, disassembly: "fabs" },
        169 => DecodeRow { pattern: 0xF04D, mask: 0x0F00, instruction: Sh4Instruction::Fneg, disassembly: "fneg" },
        170 => DecodeRow { pattern: 0xF000, mask: 0x0FF0, instruction: Sh4Instruction::Fadd, disassembly: "fadd" },
        171 => DecodeRow { pattern: 0xF001, mask: 0x0FF0, instruction: Sh4Instruction::Fsub, disassembly: "fsub" },
        172 => DecodeRow { pattern: 0xF002, mask: 0x0FF0, instruction: Sh4Instruction::Fmul, disassembly: "fmul" },
        173 => DecodeRow { pattern: 0xF00E, mask: 0x0FF0, instruction: Sh4Instruction::Fmac, disassembly: "fmac" },
        174 => DecodeRow { pattern: 0xF003, mask: 0x0FF0, instruction: Sh4Instruction::Fdiv, disassembly: "fdiv" },
        175 => DecodeRow { pattern: 0xF06D, mask: 0x0F00, instruction: Sh4Instruction::Fsqrt, disassembly: "fsqrt" },
        176 => DecodeRow { pattern: 0xF004, mask: 0x0FF0, instruction: Sh4Instruction::FcompareEq, disassembly: "fcmp/eq" },
        177 => DecodeRow { pattern: 0xF005, mask: 0x0FF0, instruction: Sh4Instruction::FcompareGt, disassembly: "fcmp/gt" },
        178 => DecodeRow { pattern: 0xF02D, mask: 0x0F00, instruction: Sh4Instruction::Float, disassembly: "float" },
        179 => DecodeRow { pattern: 0xF03D, mask: 0x0F00, instruction: Sh4Instruction::Ftrc, disassembly: "ftrc" },
        180 => DecodeRow { pattern: 0xF0ED, mask: 0x0F00, instruction: Sh4Instruction::Fipr, disassembly: "fipr" },
        181 => DecodeRow { pattern: 0xF1FD, mask: 0x0C00, instruction: Sh4Instruction::Ftrv, disassembly: "ftrv" },
        182 => DecodeRow { pattern: 0xF07D, mask: 0x0F00, instruction: Sh4Instruction::Fsrra, disassembly: "fsrra" },
        183 => DecodeRow { pattern: 0xF0FD, mask: 0x0E00, instruction: Sh4Instruction::Fsca, disassembly: "fsca" },
        184 => DecodeRow { pattern: 0x406A, mask: 0x0F00, instruction: Sh4Instruction::LdsFpscr, disassembly: "lds Rn,FPSCR" },
        185 => DecodeRow { pattern: 0x006A, mask: 0x0F00, instruction: Sh4Instruction::StsFpscr, disassembly: "sts FPSCR,Rn" },
        186 => DecodeRow { pattern: 0x4066, mask: 0x0F00, instruction: Sh4Instruction::LdsmFpscr, disassembly: "lds.l @Rn+,FPSCR" },
        187 => DecodeRow { pattern: 0x4062, mask: 0x0F00, instruction: Sh4Instruction::StsmFpscr, disassembly: "sts.l FPSCR,@-Rn" },
        188 => DecodeRow { pattern: 0x405A, mask: 0x0F00, instruction: Sh4Instruction::Ldsfpul, disassembly: "lds Rn,FPUL" },
        189 => DecodeRow { pattern: 0x005A, mask: 0x0F00, instruction: Sh4Instruction::StsFpul, disassembly: "sts FPUL,Rn" },
        190 => DecodeRow { pattern: 0x4056, mask: 0x0F00, instruction: Sh4Instruction::LdsmFpul, disassembly: "lds.l @Rn+,FPUL" },
        191 => DecodeRow { pattern: 0x4052, mask: 0x0F00, instruction: Sh4Instruction::StcmFpul, disassembly: "sts.l FPUL,@-Rn" },
        192 => DecodeRow { pattern: 0xFBFD, mask: 0x0000, instruction: Sh4Instruction::Frchg, disassembly: "frchg" },
        _ => DecodeRow { pattern: 0xF3FD, mask: 0x0000, instruction: Sh4Instruction::Fschg, disassembly: "fschg" },
    }
}

/// Decodes one opcode: the first row of the table that it matches (opcode
/// 0 takes the first row), or `Unk` when none does.
pub fn decode(op: u16) -> (r: DecodedInstruction)
    ensures
        r == decode_spec(op),
{
    if op == 0 {
        let r0 = row_at(0);
        return DecodedInstruction { opcode: InstructionOpcode(op), disassembly: r0.disassembly, instruction: r0.instruction };
    }
    let mut k: usize = 0;
    while k < NUM_ROWS
        invariant
            k <= NUM_ROWS,
            op != 0,
            first_match(op, 0) == first_match(op, k as int),
        decreases NUM_ROWS - k,
    {
        let r = row_at(k);
        if op & !r.mask == r.pattern {
            return DecodedInstruction { opcode: InstructionOpcode(op), disassembly: r.disassembly, instruction: r.instruction };
        }
        k += 1;
    }
    DecodedInstruction { opcode: InstructionOpcode(op), disassembly: "unk", instruction: Sh4Instruction::Unk }
}

/// The decoded form of every opcode, indexed by opcode.
pub fn build_opcode_lut() -> (r: Vec<DecodedInstruction>)
    ensures
        r@.len() == 0x10000,
        forall|i: int| 0 <= i < 0x10000 ==> #[trigger] r@[i] == decode_spec(i as u16),
{
    let mut lut: Vec<DecodedInstruction> = Vec::new();
    let mut i: u32 = 0;
    while i < 0x10000
        invariant
            i <= 0x10000,
            lut@.len() == i,
            forall|j: int| 0 <= j < i ==> #[trigger] lut@[j] == decode_spec(j as u16),
        decreases 0x10000 - i,
    {
        let d = decode(i as u16);
        lut.push(d);
        i += 1;
    }
    lut
}

proof fn lemma_rows_named()
    ensures
        forall|k: int| 0 <= k < NUM_ROWS ==> #[trigger] names(row(k).instruction, row(k).disassembly),
{
}

/// Every opcode decodes to an instruction together with that instruction's
/// own name: the instruction and the text come from the same row, so a row
/// can never carry out one instruction under another's name.
pub proof fn law_decode_names_its_instruction(op: u16)
    ensures
        names(decode_spec(op).instruction, decode_spec(op).disassembly),
{
    lemma_rows_named();
    lemma_first_match_bounds(op, 0);
}

proof fn lemma_first_match_is(op: u16, k: int, target: int)
    requires
        0 <= k <= target < NUM_ROWS,
        forall|j: int| k <= j < target ==> !row_matches(op, j),
        row_matches(op, target),
    ensures
        first_match(op, k) == target,
    decreases target - k,
{
    if k < target {
        lemma_first_match_is(op, k + 1, target);
    }
}

proof fn lemma_tst_rows(op: u16)
    by (bit_vector)
    ensures
        op & 0xF00F == 0x2008 ==> op & !(0x0FF0u16) != 0x6003u16,
        op & 0xF00F == 0x2008 ==> op & !(0x0FFFu16) != 0xE000u16,
        op & 0xF00F == 0x2008 ==> op & !(0x00FFu16) != 0xC700u16,
        op & 0xF00F == 0x2008 ==> op & !(0x0FFFu16) != 0x9000u16,
        op & 0xF00F == 0x2008 ==> op & !(0x0FFFu16) != 0xD000u16,
        op & 0xF00F == 0x2008 ==> op & !(0x0FF0u16) != 0x6000u16,
        op & 0xF00F == 0x2008 ==> op & !(0x0FF0u16) != 0x6001u16,
        op & 0xF00F == 0x2008 ==> op & !(0x0FF0u16) != 0x6002u16,
        op & 0xF00F == 0x2008 ==> op & !(0x0FF0u16) != 0x2000u16,
        op & 0xF00F == 0x2008 ==> op & !(0x0FF0u16) != 0x2001u16,
        op & 0xF00F == 0x2008 ==> op & !(0x0FF0u16) != 0x2002u16,
        op & 0xF00F == 0x2008 ==> op & !(0x0FF0u16) != 0x6004u16,
        op & 0xF00F == 0x2008 ==> op & !(0x0FF0u16) != 0x6005u16,
        op & 0xF00F == 0x2008 ==> op & !(0x0FF0u16) != 0x6006u16,
        op & 0xF00F == 0x2008 ==> op & !(0x0FF0u16) != 0x2004u16,
        op & 0xF00F == 0x2008 ==> op & !(0x0FF0u16) != 0x2005u16,
        op & 0xF00F == 0x2008 ==> op & !(0x0FF0u16) != 0x2006u16,
        op & 0xF00F == 0x2008 ==> op & !(0x00FFu16) != 0x8400u16,
        op & 0xF00F == 0x2008 ==> op & !(0x00FFu16) != 0x8500u16,
        op & 0xF00F == 0x2008 ==> op & !(0x0FFFu16) != 0x5000u16,
        op & 0xF00F == 0x2008 ==> op & !(0x00FFu16) != 0x8000u16,
        op & 0xF00F == 0x2008 ==> op & !(0x00FFu16) != 0x8100u16,
        op & 0xF00F == 0x2008 ==> op & !(0x0FFFu16) != 0x1000u16,
        op & 0xF00F == 0x2008 ==> op & !(0x0FF0u16) != 0x000Cu16,
        op & 0xF00F == 0x2008 ==> op & !(0x0FF0u16) != 0x000Du16,
        op & 0xF00F == 0x2008 ==> op & !(0x0FF0u16) != 0x000Eu16,
        op & 0xF00F == 0x2008 ==> op & !(0x0FF0u16) != 0x0004u16,
        op & 0xF00F == 0x2008 ==> op & !(0x0FF0u16) != 0x0005u16,
        op & 0xF00F == 0x2008 ==> op & !(0x0FF0u16) != 0x0006u16,
        op & 0xF00F == 0x2008 ==> op & !(0x00FFu16) != 0xC400u16,
        op & 0xF00F == 0x2008 ==> op & !(0x00FFu16) != 0xC500u16,
        op & 0xF00F == 0x2008 ==> op & !(0x00FFu16) != 0xC600u16,
        op & 0xF00F == 0x2008 ==> op & !(0x00FFu16) != 0xC000u16,
        op & 0xF00F == 0x2008 ==> op & !(0x00FFu16) != 0xC100u16,
        op & 0xF00F == 0x2008 ==> op & !(0x00FFu16) != 0xC200u16,
        op & 0xF00F == 0x2008 ==> op & !(0x0F00u16) != 0x0029u16,
        op & 0xF00F == 0x2008 ==> op & !(0x0FF0u16) != 0x6008u16,
        op & 0xF00F == 0x2008 ==> op & !(0x0FF0u16) != 0x6009u16,
        op & 0xF00F == 0x2008 ==> op & !(0x0FF0u16) != 0x200Du16,
        op & 0xF00F == 0x2008 ==> op & !(0x0FF0u16) != 0x300Cu16,
        op & 0xF00F == 0x2008 ==> op & !(0x0FFFu16) != 0x7000u16,
        op & 0xF00F == 0x2008 ==> op & !(0x0FF0u16) != 0x300Eu16,
        op & 0xF00F == 0x2008 ==> op & !(0x00FFu16) != 0x8800u16,
        op & 0xF00F == 0x2008 ==> op & !(0x0FF0u16) != 0x3000u16,
        op & 0xF00F == 0x2008 ==> op & !(0x0FF0u16) != 0x3002u16,
        op & 0xF00F == 0x2008 ==> op & !(0x0FF0u16) != 0x3003u16,
        op & 0xF00F == 0x2008 ==> op & !(0x0FF0u16) != 0x3006u16,
        op & 0xF00F == 0x2008 ==> op & !(0x0FF0u16) != 0x3007u16,
        op & 0xF00F == 0x2008 ==> op & !(0x0F00u16) != 0x4015u16,
        op & 0xF00F == 0x2008 ==> op & !(0x0F00u16) != 0x4011u16,
        op & 0xF00F == 0x2008 ==> op & !(0x0FF0u16) != 0x200Cu16,
        op & 0xF00F == 0x2008 ==> op & !(0x0FF0u16) != 0x2007u16,
        op & 0xF00F == 0x2008 ==> op & !(0x0000u16) != 0x0019u16,
        op & 0xF00F == 0x2008 ==> op & !(0x0FF0u16) != 0x3004u16,
        op & 0xF00F == 0x2008 ==> op & !(0x0FF0u16) != 0x300Du16,
        op & 0xF00F == 0x2008 ==> op & !(0x0FF0u16) != 0x3005u16,
        op & 0xF00F == 0x2008 ==> op & !(0x0F00u16) != 0x4010u16,
        op & 0xF00F == 0x2008 ==> op & !(0x0FF0u16) != 0x600Eu16,
        op & 0xF00F == 0x2008 ==> op & !(0x0FF0u16) != 0x600Fu16,
        op & 0xF00F == 0x2008 ==> op & !(0x0FF0u16) != 0x600Cu16,
        op & 0xF00F == 0x2008 ==> op & !(0x0FF0u16) != 0x600Du16,
        op & 0xF00F == 0x2008 ==> op & !(0x0FF0u16) != 0x000Fu16,
        op & 0xF00F == 0x2008 ==> op & !(0x0FF0u16) != 0x400Fu16,
        op & 0xF00F == 0x2008 ==> op & !(0x0FF0u16) != 0x200Eu16,
        op & 0xF00F == 0x2008 ==> op & !(0x0FF0u16) != 0x200Fu16,
        op & 0xF00F == 0x2008 ==> op & !(0x0FF0u16) != 0x0007u16,
        op & 0xF00F == 0x2008 ==> op & !(0x0FF0u16) != 0x600Bu16,
        op & 0xF00F == 0x2008 ==> op & !(0x0FF0u16) != 0x600Au16,
        op & 0xF00F == 0x2008 ==> op & !(0x0FF0u16) != 0x3008u16,
        op & 0xF00F == 0x2008 ==> op & !(0x0FF0u16) != 0x300Au16,
        op & 0xF00F == 0x2008 ==> op & !(0x0FF0u16) != 0x2009u16,
        op & 0xF00F == 0x2008 ==> op & !(0x00FFu16) != 0xC900u16,
        op & 0xF00F == 0x2008 ==> op & !(0x0FF0u16) != 0x6007u16,
        op & 0xF00F == 0x2008 ==> op & !(0x0FF0u16) != 0x200Bu16,
        op & 0xF00F == 0x2008 ==> op & !(0x00FFu16) != 0xCB00u16,
        op & 0xF00F == 0x2008 ==> op & !(0x00FFu16) != 0xCF00u16,
        op & 0xF00F == 0x2008 ==> op & !(0x0F00u16) != 0x401Bu16,
        op & 0xF00F == 0x2008 ==> op & !(0x0FF0u16) == 0x2008u16,
        op & 0xF00F == 0x2008 ==> op != 0,
{
}

/// Every opcode of the form 0010nnnnmmmm1000 decodes to TST, and carrying
/// it out changes no general register: it only sets T to whether Rn and Rm
/// share no set bit.
pub proof fn law_tst_opcodes(op: u16, m: CpuModel)
    requires
        op & 0xF00F == 0x2008,
        m.wf(),
    ensures
        decode_spec(op).instruction == Sh4Instruction::Tst,
        register_step(m, decode_spec(op).instruction, op) matches Some(m1) && m1.r == m.r && m1.t() == (m.r[op_n(
            op,
        )] & m.r[op_m(op)] == 0),
{
    lemma_tst_rows(op);
    assert forall|j: int| 0 <= j < 77 implies !row_matches(op, j) by {}
    lemma_first_match_is(op, 0, 77);
    assert(decode_row(op) == Some(row(77)));
    lemma_opcode_fields(op);
    reveal(register_step);
    law_tst_changes_no_register(m, op);
}

} // verus!
