use vstd::prelude::*;
use crate::types::Type;

verus! {

/// A virtual register, by index.
pub type Reg = usize;

/// Operand size of an integer instruction.
#[derive(Clone, Copy, Debug, PartialEq, Eq, Structural)]
pub enum OperandSize {
    Size32,
    Size64,
}

pub open spec fn size_bits(size: OperandSize) -> u16 {
    match size {
        OperandSize::Size32 => 32,
        OperandSize::Size64 => 64,
    }
}

impl OperandSize {
    pub fn bits(&self) -> (r: u16)
        ensures
            r == size_bits(*self),
    {
        match self {
            OperandSize::Size32 => 32,
            OperandSize::Size64 => 64,
        }
    }

    /// The largest unsigned value an operand of this size holds.
    pub fn max_value(&self) -> (r: u64)
        ensures
            r == (match *self {
                OperandSize::Size32 => 0xffff_ffffu64,
                OperandSize::Size64 => 0xffff_ffff_ffff_ffffu64,
            }),
    {
        match self {
            OperandSize::Size32 => 0xffff_ffff,
            OperandSize::Size64 => 0xffff_ffff_ffff_ffff,
        }
    }
}

/// Integer ALU operations.
#[derive(Clone, Copy, Debug, PartialEq, Eq, Structural)]
pub enum ALUOp {
    Add,
    Sub,
    Orr,
    OrrNot,
    And,
    AndNot,
    Eor,
    EorNot,
    AddS,
    SubS,
    Lsl,
    Lsr,
    Asr,
}

/// Shift applied to the second register of a shifted-register operation.
#[derive(Clone, Copy, Debug, PartialEq, Eq, Structural)]
pub enum ShiftOp {
    LSL,
    LSR,
    ASR,
    ROR,
}

/// Extension applied to an index register, to 64 bits.
#[derive(Clone, Copy, Debug, PartialEq, Eq, Structural)]
pub enum ExtendOp {
    UXTB,
    UXTH,
    UXTW,
    UXTX,
    SXTB,
    SXTH,
    SXTW,
    SXTX,
}

/// The two constant-materializing moves.
#[derive(Clone, Copy, Debug, PartialEq, Eq, Structural)]
pub enum MoveWideOp {
    /// Move the shifted chunk, zeroes elsewhere.
    MovZ,
    /// Move the bitwise NOT of the shifted chunk.
    MovN,
}

/// A 16-bit chunk placed at bit `16 * shift`; the ISA allows `shift <= 3`.
#[derive(Clone, Copy, Debug, PartialEq, Eq, Structural)]
pub struct MoveWideConst {
    pub bits: u16,
    pub shift: u8,
}

/// A 12-bit immediate, optionally shifted left by 12.
#[derive(Clone, Copy, Debug, PartialEq, Eq, Structural)]
pub struct Imm12 {
    pub bits: u16,
    pub shift12: bool,
}

pub open spec fn imm12_value(imm: Imm12) -> u64 {
    if imm.shift12 {
        (imm.bits as int * 4096) as u64
    } else {
        imm.bits as u64
    }
}

impl Imm12 {
    pub fn value(&self) -> (r: u64)
        ensures
            r == imm12_value(*self),
    {
        if self.shift12 {
            (self.bits as u64) * 4096
        } else {
            self.bits as u64
        }
    }
}

/// Flags of a memory access; only `checked` accesses are verified.
#[derive(Clone, Copy, Debug, PartialEq, Eq, Structural)]
pub struct MemFlags {
    pub checked: bool,
}

impl MemFlags {
    pub fn checked(&self) -> (r: bool)
        ensures
            r == self.checked,
    {
        self.checked
    }
}

/// Addressing modes of single-register loads and stores.
#[derive(Clone, Copy, Debug, PartialEq, Eq, Structural)]
pub enum AMode {
    /// `rn + rm`.
    RegReg { rn: Reg, rm: Reg },
    /// `rn + rm * size_of(ty)`.
    RegScaled { rn: Reg, rm: Reg, ty: Type },
    /// `rn + extend(rm) * size_of(ty)`.
    RegScaledExtended { rn: Reg, rm: Reg, ty: Type, extendop: ExtendOp },
    /// `rn + extend(rm)`.
    RegExtended { rn: Reg, rm: Reg, extendop: ExtendOp },
    /// `rn + simm9`.
    Unscaled { rn: Reg, simm9: i16 },
    /// `rn + uimm12`, the immediate already multiplied by the access size.
    UnsignedOffset { rn: Reg, uimm12: u16 },
    /// A label in the code.
    Label { label: u32 },
    /// An entry of the constant pool.
    Const { addr: u32 },
    /// `rn + off`.
    RegOffset { rn: Reg, off: i64, ty: Type },
    /// Relative to the stack pointer.
    SPOffset { off: i64 },
    /// Relative to the frame pointer.
    FPOffset { off: i64 },
    /// Relative to the nominal stack pointer.
    NominalSPOffset { off: i64 },
    /// Stack pointer, then incremented.
    SPPostIndexed { simm9: i16 },
    /// Stack pointer, incremented first.
    SPPreIndexed { simm9: i16 },
}

/// Addressing modes of register-pair loads and stores.
#[derive(Clone, Copy, Debug, PartialEq, Eq, Structural)]
pub enum PairAMode {
    SignedOffset { reg: Reg, simm7: i16 },
    SPPreIndexed { simm7: i16 },
    SPPostIndexed { simm7: i16 },
}

/// The lowered AArch64 instructions, as far as fact checking tells them apart.
#[allow(inconsistent_fields)]
#[derive(Clone, Copy, Debug, PartialEq, Eq, Structural)]
pub enum Inst {
    /// The pseudo-instruction that defines the function's arguments.
    Args,
    ULoad8 { rd: Reg, mem: AMode, flags: MemFlags },
    SLoad8 { rd: Reg, mem: AMode, flags: MemFlags },
    ULoad16 { rd: Reg, mem: AMode, flags: MemFlags },
    SLoad16 { rd: Reg, mem: AMode, flags: MemFlags },
    ULoad32 { rd: Reg, mem: AMode, flags: MemFlags },
    SLoad32 { rd: Reg, mem: AMode, flags: MemFlags },
    ULoad64 { rd: Reg, mem: AMode, flags: MemFlags },
    FpuLoad32 { rd: Reg, mem: AMode, flags: MemFlags },
    FpuLoad64 { rd: Reg, mem: AMode, flags: MemFlags },
    FpuLoad128 { rd: Reg, mem: AMode, flags: MemFlags },
    LoadP64 { rt: Reg, rt2: Reg, mem: PairAMode, flags: MemFlags },
    FpuLoadP64 { rt: Reg, rt2: Reg, mem: PairAMode, flags: MemFlags },
    FpuLoadP128 { rt: Reg, rt2: Reg, mem: PairAMode, flags: MemFlags },
    /// Load one lane of type `lane_ty` through `rn` and replicate it.
    VecLoadReplicate { rd: Reg, rn: Reg, lane_ty: Type, flags: MemFlags },
    LoadAcquire { access_ty: Type, rt: Reg, rn: Reg, flags: MemFlags },
    Store8 { rd: Reg, mem: AMode, flags: MemFlags },
    Store16 { rd: Reg, mem: AMode, flags: MemFlags },
    Store32 { rd: Reg, mem: AMode, flags: MemFlags },
    Store64 { rd: Reg, mem: AMode, flags: MemFlags },
    FpuStore32 { rd: Reg, mem: AMode, flags: MemFlags },
    FpuStore64 { rd: Reg, mem: AMode, flags: MemFlags },
    FpuStore128 { rd: Reg, mem: AMode, flags: MemFlags },
    StoreP64 { rt: Reg, rt2: Reg, mem: PairAMode, flags: MemFlags },
    FpuStoreP64 { rt: Reg, rt2: Reg, mem: PairAMode, flags: MemFlags },
    FpuStoreP128 { rt: Reg, rt2: Reg, mem: PairAMode, flags: MemFlags },
    StoreRelease { access_ty: Type, rt: Reg, rn: Reg, flags: MemFlags },
    AluRRR { alu_op: ALUOp, size: OperandSize, rd: Reg, rn: Reg, rm: Reg },
    AluRRImm12 { alu_op: ALUOp, size: OperandSize, rd: Reg, rn: Reg, imm12: Imm12 },
    AluRRRShift {
        alu_op: ALUOp,
        size: OperandSize,
        rd: Reg,
        rn: Reg,
        rm: Reg,
        shift_op: ShiftOp,
        shift_amt: u8,
    },
    AluRRRExtend {
        alu_op: ALUOp,
        size: OperandSize,
        rd: Reg,
        rn: Reg,
        rm: Reg,
        extendop: ExtendOp,
    },
    AluRRImmLogic { alu_op: ALUOp, size: OperandSize, rd: Reg, rn: Reg, imm: u64 },
    AluRRImmShift { alu_op: ALUOp, size: OperandSize, rd: Reg, rn: Reg, immshift: u8 },
    Extend { rd: Reg, rn: Reg, signed: bool, from_bits: u8, to_bits: u8 },
    MovWide { op: MoveWideOp, imm: MoveWideConst, size: OperandSize, rd: Reg },
    /// Overwrite one 16-bit chunk of `rn`, keeping the other bits.
    MovK { rd: Reg, rn: Reg, imm: MoveWideConst, size: OperandSize },
    /// Any other instruction; it defines register `rd`, if any.
    Other { rd: Option<Reg> },
}

/// The limits the ISA puts on instruction fields.
pub open spec fn inst_well_formed(inst: Inst) -> bool {
    match inst {
        Inst::MovWide { imm, .. } | Inst::MovK { imm, .. } => imm.shift <= 3,
        _ => true,
    }
}

} // verus!
