use vstd::prelude::*;
use crate::types::{Type, type_bytes};
use crate::fact::{Fact, PccError, PccResult, fact_from_type, fact_propagates, fact_as_const, constant_fact, max_range_fact};
use crate::context::{FactContext, subsumes_spec, subsumes_optionals_spec, add_spec, offset_spec, scale_spec, shl_spec, uextend_spec, sextend_spec};
use crate::inst::{Reg, Inst, AMode, ALUOp, ShiftOp, ExtendOp, MoveWideOp, MoveWideConst, MemFlags, OperandSize, size_bits, imm12_value};
use crate::vcode::VCodeView;

verus! {

/// The fact of register `r`: its own, else the one its type implies.
pub open spec fn fact_or_default(vc: VCodeView, r: Reg) -> PccResult<Fact> {
    match vc.fact_of(r) {
        Some(f) => Ok(f),
        None => match vc.type_of(r) {
            Some(ty) => match fact_from_type(ty) {
                Some(f) => Ok(f),
                None => Err(PccError::MissingFact),
            },
            None => Err(PccError::MissingFact),
        },
    }
}

pub open spec fn or_unsupported(f: Option<Fact>) -> PccResult<Fact> {
    match f {
        Some(f) => Ok(f),
        None => Err(PccError::UnsupportedFact),
    }
}

/// A derived fact checked against the fact stated for a register; stated
/// `Mem` facts are accepted as they are.
pub open spec fn subsumes_check(derived: Fact, stated: Fact) -> PccResult<()> {
    if stated is Mem || subsumes_spec(derived, stated) {
        Ok(())
    } else {
        Err(PccError::UnsupportedFact)
    }
}

/// The fact of an index register after an extend operation to 64 bits.
pub open spec fn extend_spec(value: Fact, mode: ExtendOp) -> Option<Fact> {
    match mode {
        ExtendOp::UXTB => uextend_spec(value, 8, 64),
        ExtendOp::UXTH => uextend_spec(value, 16, 64),
        ExtendOp::UXTW => uextend_spec(value, 32, 64),
        ExtendOp::UXTX => Some(value),
        ExtendOp::SXTB => sextend_spec(value, 8, 64),
        ExtendOp::SXTH => sextend_spec(value, 16, 64),
        ExtendOp::SXTW => sextend_spec(value, 32, 64),
        ExtendOp::SXTX => None,
    }
}

pub open spec fn reg_propagates(vc: VCodeView, r: Reg) -> bool {
    match vc.fact_of(r) {
        Some(f) => fact_propagates(f),
        None => false,
    }
}

/// How an instruction's result relates to its derived fact: a stated fact
/// must be implied by it; otherwise, when an input carries a propagating
/// fact, a derived fact is recorded; otherwise nothing happens.
#[verifier::opaque]
pub open spec fn output_spec(vc: VCodeView, out: Reg, ins: Seq<Reg>, derived: PccResult<Fact>) -> (
    PccResult<()>,
    Seq<Option<Fact>>,
) {
    match vc.fact_of(out) {
        Some(stated) => match derived {
            Ok(f) => (subsumes_check(f, stated), vc.facts),
            Err(e) => (Err(e), vc.facts),
        },
        None => if exists|i: int| 0 <= i < ins.len() && #[trigger] reg_propagates(vc, ins[i]) {
            match derived {
                Ok(f) => (Ok(()), vc.facts_with(out, f)),
                Err(_) => (Ok(()), vc.facts),
            }
        } else {
            (Ok(()), vc.facts)
        },
    }
}

/// A derivation from one input fact.
#[derive(Clone, Copy, Debug, PartialEq, Eq, Structural)]
pub enum UnaryRule {
    /// Add a constant at `width` bits.
    AddImm { width: u16, imm: u64 },
    /// Shift left at `width` bits.
    Shl { width: u16, amount: u64 },
    /// Zero-extend.
    Uextend { from_bits: u16, to_bits: u16 },
}

/// A derivation from two input facts.
#[derive(Clone, Copy, Debug, PartialEq, Eq, Structural)]
pub enum BinaryRule {
    /// `a + b` at `width` bits.
    Add { width: u16 },
    /// `a + (b << amount)` at `width` bits.
    AddShifted { width: u16, amount: u64 },
    /// `a + extend(b)` at `width` bits.
    AddExtended { width: u16, extendop: ExtendOp },
}

pub open spec fn unary_spec(rule: UnaryRule, a: Fact) -> PccResult<Fact> {
    match rule {
        UnaryRule::AddImm { width, imm } => or_unsupported(add_spec(a, constant_fact(width, imm), width)),
        UnaryRule::Shl { width, amount } => or_unsupported(shl_spec(a, width, amount)),
        UnaryRule::Uextend { from_bits, to_bits } => or_unsupported(uextend_spec(a, from_bits, to_bits)),
    }
}

pub open spec fn binary_spec(rule: BinaryRule, a: Fact, b: Fact) -> PccResult<Fact> {
    match rule {
        BinaryRule::Add { width } => or_unsupported(add_spec(a, b, width)),
        BinaryRule::AddShifted { width, amount } => match shl_spec(b, width, amount) {
            Some(s) => or_unsupported(add_spec(a, s, width)),
            None => Err(PccError::UnsupportedFact),
        },
        BinaryRule::AddExtended { width, extendop } => match extend_spec(b, extendop) {
            Some(e) => or_unsupported(add_spec(a, e, width)),
            None => Err(PccError::UnsupportedFact),
        },
    }
}

pub open spec fn unop_derived(vc: VCodeView, ra: Reg, rule: UnaryRule) -> PccResult<Fact> {
    match fact_or_default(vc, ra) {
        Ok(a) => unary_spec(rule, a),
        Err(e) => Err(e),
    }
}

pub open spec fn binop_derived(vc: VCodeView, ra: Reg, rb: Reg, rule: BinaryRule) -> PccResult<Fact> {
    match fact_or_default(vc, ra) {
        Ok(a) => match fact_or_default(vc, rb) {
            Ok(b) => binary_spec(rule, a, b),
            Err(e) => Err(e),
        },
        Err(e) => Err(e),
    }
}

/// A register given a known constant: checked against a stated fact, else
/// recorded.
#[verifier::opaque]
pub open spec fn constant_spec(vc: VCodeView, out: Reg, width: u16, value: u64) -> (
    PccResult<()>,
    Seq<Option<Fact>>,
) {
    match vc.fact_of(out) {
        Some(stated) => (subsumes_check(constant_fact(width, value), stated), vc.facts),
        None => (Ok(()), vc.facts_with(out, constant_fact(width, value))),
    }
}

/// The fact of the address that an addressing mode computes; `None` for
/// the modes that are accepted without a check.
pub open spec fn amode_fact(vc: VCodeView, amode: AMode) -> Option<PccResult<Fact>> {
    match amode {
        AMode::RegReg { rn, rm } => Some(binop_derived(vc, rn, rm, BinaryRule::Add { width: 64 })),
        AMode::RegScaled { rn, rm, ty } => Some(
            match fact_or_default(vc, rn) {
                Ok(a) => match fact_or_default(vc, rm) {
                    Ok(b) => match scale_spec(b, 64, type_bytes(ty) as u32) {
                        Some(s) => or_unsupported(add_spec(a, s, 64)),
                        None => Err(PccError::UnsupportedFact),
                    },
                    Err(e) => Err(e),
                },
                Err(e) => Err(e),
            },
        ),
        AMode::RegScaledExtended { rn, rm, ty, extendop } => Some(
            match fact_or_default(vc, rn) {
                Ok(a) => match fact_or_default(vc, rm) {
                    Ok(b) => match extend_spec(b, extendop) {
                        Some(e) => match scale_spec(e, 64, type_bytes(ty) as u32) {
                            Some(s) => or_unsupported(add_spec(a, s, 64)),
                            None => Err(PccError::UnsupportedFact),
                        },
                        None => Err(PccError::UnsupportedFact),
                    },
                    Err(e) => Err(e),
                },
                Err(e) => Err(e),
            },
        ),
        AMode::RegExtended { rn, rm, extendop } => Some(
            binop_derived(vc, rn, rm, BinaryRule::AddExtended { width: 64, extendop }),
        ),
        AMode::Unscaled { rn, simm9 } => Some(offset_derived(vc, rn, simm9 as i64)),
        AMode::UnsignedOffset { rn, uimm12 } => Some(offset_derived(vc, rn, uimm12 as i64)),
        AMode::RegOffset { rn, off, .. } => Some(offset_derived(vc, rn, off)),
        AMode::Label { .. }
        | AMode::Const { .. }
        | AMode::SPOffset { .. }
        | AMode::FPOffset { .. }
        | AMode::NominalSPOffset { .. }
        | AMode::SPPostIndexed { .. }
        | AMode::SPPreIndexed { .. } => None,
    }
}

pub open spec fn offset_derived(vc: VCodeView, rn: Reg, delta: i64) -> PccResult<Fact> {
    match fact_or_default(vc, rn) {
        Ok(a) => or_unsupported(offset_spec(a, 64, delta)),
        Err(e) => Err(e),
    }
}

/// The access type that the check of an addressing mode uses: a scaled
/// mode carries its own.
pub open spec fn amode_access_ty(amode: AMode, ty: Type) -> Type {
    match amode {
        AMode::RegScaled { ty: t, .. } | AMode::RegScaledExtended { ty: t, .. } => t,
        _ => ty,
    }
}

/// What a checked access does with the address fact.
#[derive(Clone, Copy, Debug, PartialEq, Eq, Structural)]
pub enum LoadOrStore {
    /// A load: the loaded value's fact must imply the destination's fact.
    Load { result_fact: Option<Fact> },
    /// A store: the region must accept the stored value's fact.
    Store { stored_fact: Option<Fact> },
}

pub open spec fn access_spec(ctx: FactContext, addr: Fact, ty: Type, op: LoadOrStore) -> PccResult<()> {
    match op {
        LoadOrStore::Load { result_fact } => match ctx.load_spec(addr, ty) {
            Ok(loaded) => if subsumes_optionals_spec(loaded, result_fact) {
                Ok(())
            } else {
                Err(PccError::UnsupportedFact)
            },
            Err(e) => Err(e),
        },
        LoadOrStore::Store { stored_fact } => ctx.store_spec(addr, ty, stored_fact),
    }
}

pub open spec fn addr_spec(
    ctx: FactContext,
    vc: VCodeView,
    flags: MemFlags,
    amode: AMode,
    ty: Type,
    op: LoadOrStore,
) -> PccResult<()> {
    if !flags.checked {
        Ok(())
    } else {
        match amode_fact(vc, amode) {
            None => Ok(()),
            Some(Err(e)) => Err(e),
            Some(Ok(addr)) => access_spec(ctx, addr, amode_access_ty(amode, ty), op),
        }
    }
}

pub open spec fn dest_fact(vc: VCodeView, rd: Option<Reg>) -> Option<Fact> {
    match rd {
        Some(r) => vc.fact_of(r),
        None => None,
    }
}

#[verifier::opaque]
pub open spec fn load_spec(ctx: FactContext, vc: VCodeView, rd: Option<Reg>, flags: MemFlags, amode: AMode, ty: Type) -> PccResult<()> {
    addr_spec(ctx, vc, flags, amode, ty, LoadOrStore::Load { result_fact: dest_fact(vc, rd) })
}

#[verifier::opaque]
pub open spec fn store_spec(ctx: FactContext, vc: VCodeView, rd: Option<Reg>, flags: MemFlags, amode: AMode, ty: Type) -> PccResult<()> {
    addr_spec(ctx, vc, flags, amode, ty, LoadOrStore::Store { stored_fact: dest_fact(vc, rd) })
}

/// A load or store whose address is one register, without arithmetic.
#[verifier::opaque]
pub open spec fn reg_access_spec(ctx: FactContext, vc: VCodeView, flags: MemFlags, rn: Reg, ty: Type, is_load: bool) -> PccResult<()> {
    if !flags.checked {
        Ok(())
    } else {
        match fact_or_default(vc, rn) {
            Ok(addr) => if is_load {
                match ctx.load_spec(addr, ty) {
                    Ok(_) => Ok(()),
                    Err(e) => Err(e),
                }
            } else {
                ctx.store_spec(addr, ty, None)
            },
            Err(e) => Err(e),
        }
    }
}

/// The value a zeroing move-wide puts in its register.
pub open spec fn movz_value(imm: MoveWideConst) -> u64 {
    (imm.bits as u64) << ((imm.shift as u64) * 16)
}

/// The value an inverting move-wide puts in its register.
pub open spec fn movn_value(imm: MoveWideConst, size: OperandSize) -> u64 {
    !movz_value(imm) & (match size {
        OperandSize::Size32 => 0xffff_ffffu64,
        OperandSize::Size64 => 0xffff_ffff_ffff_ffffu64,
    })
}

/// The universal fact of the result width, checked or recorded as usual.
#[verifier::opaque]
pub open spec fn fallback_spec(vc: VCodeView, rd: Reg, ins: Seq<Reg>, bits: u16) -> (
    PccResult<()>,
    Seq<Option<Fact>>,
) {
    output_spec(vc, rd, ins, Ok(max_range_fact(bits)))
}

pub open spec fn has_fact_spec(vc: VCodeView, r: Reg) -> bool {
    vc.fact_of(r) is Some
}

/// Instructions that no rule covers.
#[verifier::opaque]
pub open spec fn default_spec(vc: VCodeView, idx: usize) -> (PccResult<()>, Seq<Option<Fact>>) {
    if vc.requires_fact(idx) {
        (Err(PccError::UnsupportedFact), vc.facts)
    } else {
        (Ok(()), vc.facts)
    }
}

/// The outcome of a load or store instruction.
#[verifier::opaque]
pub open spec fn memory_check_spec(ctx: FactContext, vc: VCodeView, inst: Inst) -> PccResult<()> {
    match inst {
        Inst::ULoad8 { rd, mem, flags } | Inst::SLoad8 { rd, mem, flags } => load_spec(ctx, vc, Some(rd), flags, mem, Type::I8),
        Inst::ULoad16 { rd, mem, flags } | Inst::SLoad16 { rd, mem, flags } => load_spec(ctx, vc, Some(rd), flags, mem, Type::I16),
        Inst::ULoad32 { rd, mem, flags } | Inst::SLoad32 { rd, mem, flags } => load_spec(ctx, vc, Some(rd), flags, mem, Type::I32),
        Inst::ULoad64 { rd, mem, flags } => load_spec(ctx, vc, Some(rd), flags, mem, Type::I64),
        Inst::FpuLoad32 { mem, flags, .. } => load_spec(ctx, vc, None, flags, mem, Type::F32),
        Inst::FpuLoad64 { mem, flags, .. } => load_spec(ctx, vc, None, flags, mem, Type::F64),
        Inst::FpuLoad128 { mem, flags, .. } => load_spec(ctx, vc, None, flags, mem, Type::I8X16),
        Inst::LoadP64 { .. } | Inst::FpuLoadP64 { .. } | Inst::FpuLoadP128 { .. }
        | Inst::StoreP64 { .. } | Inst::FpuStoreP64 { .. } | Inst::FpuStoreP128 { .. } => Err(PccError::UnimplementedInst),
        Inst::VecLoadReplicate { rn, lane_ty, flags, .. } => reg_access_spec(ctx, vc, flags, rn, lane_ty, true),
        Inst::LoadAcquire { access_ty, rn, flags, .. } => reg_access_spec(ctx, vc, flags, rn, access_ty, true),
        Inst::Store8 { rd, mem, flags } => store_spec(ctx, vc, Some(rd), flags, mem, Type::I8),
        Inst::Store16 { rd, mem, flags } => store_spec(ctx, vc, Some(rd), flags, mem, Type::I16),
        Inst::Store32 { rd, mem, flags } => store_spec(ctx, vc, Some(rd), flags, mem, Type::I32),
        Inst::Store64 { rd, mem, flags } => store_spec(ctx, vc, Some(rd), flags, mem, Type::I64),
        Inst::FpuStore32 { mem, flags, .. } => store_spec(ctx, vc, None, flags, mem, Type::F32),
        Inst::FpuStore64 { mem, flags, .. } => store_spec(ctx, vc, None, flags, mem, Type::F64),
        Inst::FpuStore128 { mem, flags, .. } => store_spec(ctx, vc, None, flags, mem, Type::I8X16),
        Inst::StoreRelease { access_ty, rn, flags, .. } => reg_access_spec(ctx, vc, flags, rn, access_ty, false),
        _ => Ok(()),
    }
}

/// The outcome of an integer ALU instruction, and the fact store after it.
#[verifier::opaque]
pub open spec fn alu_check_spec(vc: VCodeView, inst: Inst) -> (PccResult<()>, Seq<Option<Fact>>) {
    match inst {
        Inst::AluRRR { alu_op, size, rd, rn, rm } => if alu_op == ALUOp::Add {
            output_spec(vc, rd, seq![rn, rm], binop_derived(vc, rn, rm, BinaryRule::Add { width: size_bits(size) }))
        } else {
            fallback_spec(vc, rd, seq![rn, rm], size_bits(size))
        },
        Inst::AluRRImm12 { alu_op, size, rd, rn, imm12 } => if alu_op == ALUOp::Add {
            output_spec(vc, rd, seq![rn], unop_derived(vc, rn, UnaryRule::AddImm { width: size_bits(size), imm: imm12_value(imm12) }))
        } else {
            fallback_spec(vc, rd, seq![rn], size_bits(size))
        },
        Inst::AluRRRShift { alu_op, size, rd, rn, rm, shift_op, shift_amt } => if alu_op == ALUOp::Add
            && shift_op == ShiftOp::LSL && has_fact_spec(vc, rn) && has_fact_spec(vc, rm) {
            output_spec(vc, rd, seq![rn, rm], binop_derived(vc, rn, rm, BinaryRule::AddShifted { width: size_bits(size), amount: shift_amt as u64 }))
        } else {
            fallback_spec(vc, rd, seq![rn, rm], size_bits(size))
        },
        Inst::AluRRRExtend { alu_op, size, rd, rn, rm, extendop } => if alu_op == ALUOp::Add
            && has_fact_spec(vc, rn) && has_fact_spec(vc, rm) {
            output_spec(vc, rd, seq![rn, rm], binop_derived(vc, rn, rm, BinaryRule::AddExtended { width: size_bits(size), extendop }))
        } else {
            fallback_spec(vc, rd, seq![rn, rm], size_bits(size))
        },
        Inst::AluRRImmLogic { size, rd, rn, .. } => fallback_spec(vc, rd, seq![rn], size_bits(size)),
        Inst::AluRRImmShift { alu_op, size, rd, rn, immshift } => if alu_op == ALUOp::Lsl && has_fact_spec(vc, rn) {
            output_spec(vc, rd, seq![rn], unop_derived(vc, rn, UnaryRule::Shl { width: size_bits(size), amount: immshift as u64 }))
        } else {
            fallback_spec(vc, rd, seq![rn], size_bits(size))
        },
        _ => (Ok(()), vc.facts),
    }
}

/// The outcome of a move-wide or move-keep instruction, and the fact store
/// after it.
#[verifier::opaque]
pub open spec fn move_check_spec(vc: VCodeView, inst: Inst) -> (PccResult<()>, Seq<Option<Fact>>) {
    match inst {
        Inst::MovWide { op, imm, size, rd } => match op {
            MoveWideOp::MovZ => constant_spec(vc, rd, 64, movz_value(imm)),
            MoveWideOp::MovN => constant_spec(vc, rd, 64, movn_value(imm, size)),
        },
        Inst::MovK { rd, rn, imm, .. } => match fact_or_default(vc, rn) {
            Ok(input) => match fact_as_const(input, 64) {
                Some(c) => constant_spec(vc, rd, 64, c | movz_value(imm)),
                None => output_spec(vc, rd, seq![], Ok(max_range_fact(64))),
            },
            Err(e) => (Err(e), vc.facts),
        },
        _ => (Ok(()), vc.facts),
    }
}

/// The outcome of checking instruction `idx`, and the fact store after it.
pub open spec fn check_spec(ctx: FactContext, vc: VCodeView, idx: usize) -> (PccResult<()>, Seq<Option<Fact>>) {
    let inst = vc.insts[idx as int];
    match inst {
        Inst::Args => (Ok(()), vc.facts),
        Inst::AluRRR { .. }
        | Inst::AluRRImm12 { .. }
        | Inst::AluRRRShift { .. }
        | Inst::AluRRRExtend { .. }
        | Inst::AluRRImmLogic { .. }
        | Inst::AluRRImmShift { .. } => alu_check_spec(vc, inst),
        Inst::Extend { rd, rn, signed, from_bits, to_bits } => if !signed && has_fact_spec(vc, rn) {
            output_spec(vc, rd, seq![rn], unop_derived(vc, rn, UnaryRule::Uextend { from_bits: from_bits as u16, to_bits: to_bits as u16 }))
        } else {
            default_spec(vc, idx)
        },
        Inst::MovWide { .. } | Inst::MovK { .. } => move_check_spec(vc, inst),
        Inst::Other { .. } => default_spec(vc, idx),
        _ => (memory_check_spec(ctx, vc, inst), vc.facts),
    }
}

/// The outcome of checking instructions `i..` in program order, stopping at
/// the first failure, which is tagged with its instruction's index; and the
/// fact store at the end.
pub open spec fn check_from(ctx: FactContext, vc: VCodeView, i: nat) -> (
    Result<(), (usize, PccError)>,
    Seq<Option<Fact>>,
)
    decreases vc.insts.len() - i,
{
    if i >= vc.insts.len() {
        (Ok(()), vc.facts)
    } else {
        let (r, facts) = check_spec(ctx, vc, i as usize);
        match r {
            Err(e) => (Err((i as usize, e)), facts),
            Ok(_) => check_from(ctx, VCodeView { facts, ..vc }, i + 1),
        }
    }
}

} // verus!
