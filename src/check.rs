//! Proof-carrying-code checking of lowered AArch64 instructions.
use vstd::prelude::*;
use crate::types::Type;
use crate::fact::{Fact, PccError, PccResult};
use crate::context::FactContext;
use crate::inst::{inst_well_formed, Reg, Inst, AMode, PairAMode, ALUOp, ShiftOp, ExtendOp, MoveWideOp, MemFlags};
use crate::vcode::{VCode, VCodeView};
use crate::check_spec::{
    fact_or_default, or_unsupported, subsumes_check, extend_spec, reg_propagates, output_spec,
    UnaryRule, BinaryRule, unary_spec, binary_spec, unop_derived, binop_derived, constant_spec,
    LoadOrStore, addr_spec, load_spec, store_spec, reg_access_spec, dest_fact,
    check_spec, check_from, memory_check_spec, alu_check_spec, move_check_spec,
};

verus! {

/// The two fact stores differ at most in their facts.
pub open spec fn same_code(a: VCodeView, b: VCodeView) -> bool {
    &&& a.insts == b.insts
    &&& a.vreg_types == b.vreg_types
    &&& a.fact_required == b.fact_required
}

/// The fact of `reg`, or the one its type implies.
pub fn get_fact_or_default(vcode: &VCode, reg: Reg) -> (r: PccResult<Fact>)
    ensures
        r == fact_or_default(vcode@, reg),
{
    match vcode.vreg_fact(reg) {
        Some(f) => Ok(*f),
        None => match vcode.vreg_type(reg) {
            Some(ty) => match Fact::infer_from_type(ty) {
                Some(f) => Ok(f),
                None => Err(PccError::MissingFact),
            },
            None => Err(PccError::MissingFact),
        },
    }
}

pub fn has_fact(vcode: &VCode, reg: Reg) -> (r: bool)
    ensures
        r == (vcode@.fact_of(reg) is Some),
{
    vcode.vreg_fact(reg).is_some()
}

pub fn fail_if_missing(fact: Option<Fact>) -> (r: PccResult<Fact>)
    ensures
        r == or_unsupported(fact),
{
    match fact {
        Some(f) => Ok(f),
        None => Err(PccError::UnsupportedFact),
    }
}

/// Checks that a derived fact implies the fact stated for a register.
pub fn check_subsumes(ctx: &FactContext, subsumer: &Fact, subsumee: &Fact) -> (r: PccResult<()>)
    ensures
        r == subsumes_check(*subsumer, *subsumee),
{
    // Stated `mem` facts are accepted as they are, for now.
    if let Fact::Mem { .. } = subsumee {
        return Ok(());
    }
    if ctx.subsumes(subsumer, subsumee) {
        Ok(())
    } else {
        Err(PccError::UnsupportedFact)
    }
}

/// The fact of `value` after the extend operation `mode`, to 64 bits.
pub fn extend_fact(ctx: &FactContext, value: &Fact, mode: ExtendOp) -> (r: Option<Fact>)
    ensures
        r == extend_spec(*value, mode),
{
    match mode {
        ExtendOp::UXTB => ctx.uextend(value, 8, 64),
        ExtendOp::UXTH => ctx.uextend(value, 16, 64),
        ExtendOp::UXTW => ctx.uextend(value, 32, 64),
        ExtendOp::UXTX => Some(*value),
        ExtendOp::SXTB => ctx.sextend(value, 8, 64),
        ExtendOp::SXTH => ctx.sextend(value, 16, 64),
        ExtendOp::SXTW => ctx.sextend(value, 32, 64),
        ExtendOp::SXTX => None,
    }
}

/// Reconciles the fact derived for `out` with the register's own: a stated
/// fact must be implied; else, when some input in `ins` carries a
/// propagating fact, a derived fact is recorded.
pub fn check_output(
    ctx: &FactContext,
    vcode: &mut VCode,
    out: Reg,
    ins: &[Reg],
    derived: PccResult<Fact>,
) -> (r: PccResult<()>)
    ensures
        (r, final(vcode)@.facts) == output_spec(old(vcode)@, out, ins@, derived),
        same_code(old(vcode)@, final(vcode)@),
{
    reveal(output_spec);
    if let Some(fact) = vcode.vreg_fact(out) {
        match derived {
            Ok(result) => check_subsumes(ctx, &result, fact),
            Err(e) => Err(e),
        }
    } else {
        let mut any = false;
        let mut i: usize = 0;
        while i < ins.len()
            invariant
                i <= ins@.len(),
                any == exists|j: int| 0 <= j < i && #[trigger] reg_propagates(vcode@, ins@[j]),
            decreases ins@.len() - i,
        {
            let p = match vcode.vreg_fact(ins[i]) {
                Some(f) => f.propagates(),
                None => false,
            };
            proof {
                assert(p == reg_propagates(vcode@, ins@[i as int]));
                if p {
                    assert(exists|j: int| 0 <= j < i + 1 && #[trigger] reg_propagates(vcode@, ins@[j]));
                }
                if exists|j: int| 0 <= j < i + 1 && #[trigger] reg_propagates(vcode@, ins@[j]) {
                    let j = choose|j: int| 0 <= j < i + 1 && #[trigger] reg_propagates(vcode@, ins@[j]);
                    assert(j < i || p);
                }
            }
            any = any || p;
            i += 1;
        }
        if any {
            if let Ok(fact) = derived {
                vcode.set_vreg_fact(out, fact);
            }
        }
        Ok(())
    }
}

fn derive_unary(ctx: &FactContext, rule: UnaryRule, a: &Fact) -> (r: PccResult<Fact>)
    ensures
        r == unary_spec(rule, *a),
{
    match rule {
        UnaryRule::AddImm { width, imm } => {
            let imm_fact = Fact::constant(width, imm);
            fail_if_missing(ctx.add(a, &imm_fact, width))
        },
        UnaryRule::Shl { width, amount } => fail_if_missing(ctx.shl(a, width, amount)),
        UnaryRule::Uextend { from_bits, to_bits } => fail_if_missing(ctx.uextend(a, from_bits, to_bits)),
    }
}

fn derive_binary(ctx: &FactContext, rule: BinaryRule, a: &Fact, b: &Fact) -> (r: PccResult<Fact>)
    ensures
        r == binary_spec(rule, *a, *b),
{
    match rule {
        BinaryRule::Add { width } => fail_if_missing(ctx.add(a, b, width)),
        BinaryRule::AddShifted { width, amount } => {
            let shifted = fail_if_missing(ctx.shl(b, width, amount))?;
            fail_if_missing(ctx.add(a, &shifted, width))
        },
        BinaryRule::AddExtended { width, extendop } => {
            let extended = fail_if_missing(extend_fact(ctx, b, extendop))?;
            fail_if_missing(ctx.add(a, &extended, width))
        },
    }
}

/// An instruction with one input `ra`, whose result fact `rule` derives.
pub fn check_unop(ctx: &FactContext, vcode: &mut VCode, out: Reg, ra: Reg, rule: UnaryRule) -> (r: PccResult<()>)
    ensures
        (r, final(vcode)@.facts) == output_spec(old(vcode)@, out, seq![ra], unop_derived(old(vcode)@, ra, rule)),
        same_code(old(vcode)@, final(vcode)@),
{
    let derived = match get_fact_or_default(vcode, ra) {
        Ok(a) => derive_unary(ctx, rule, &a),
        Err(e) => Err(e),
    };
    let ins = [ra];
    proof {
        assert(ins@ =~= seq![ra]);
    }
    check_output(ctx, vcode, out, &ins, derived)
}

/// An instruction with inputs `ra` and `rb`, whose result fact `rule`
/// derives.
pub fn check_binop(
    ctx: &FactContext,
    vcode: &mut VCode,
    out: Reg,
    ra: Reg,
    rb: Reg,
    rule: BinaryRule,
) -> (r: PccResult<()>)
    ensures
        (r, final(vcode)@.facts) == output_spec(old(vcode)@, out, seq![ra, rb], binop_derived(old(vcode)@, ra, rb, rule)),
        same_code(old(vcode)@, final(vcode)@),
{
    let derived = match get_fact_or_default(vcode, ra) {
        Ok(a) => match get_fact_or_default(vcode, rb) {
            Ok(b) => derive_binary(ctx, rule, &a, &b),
            Err(e) => Err(e),
        },
        Err(e) => Err(e),
    };
    let ins = [ra, rb];
    proof {
        assert(ins@ =~= seq![ra, rb]);
    }
    check_output(ctx, vcode, out, &ins, derived)
}

/// An instruction that puts the constant `value` in `out`.
pub fn check_constant(ctx: &FactContext, vcode: &mut VCode, out: Reg, bit_width: u16, value: u64) -> (r: PccResult<()>)
    ensures
        (r, final(vcode)@.facts) == constant_spec(old(vcode)@, out, bit_width, value),
        same_code(old(vcode)@, final(vcode)@),
{
    reveal(constant_spec);
    let result = Fact::constant(bit_width, value);
    if let Some(fact) = vcode.vreg_fact(out) {
        check_subsumes(ctx, &result, fact)
    } else {
        vcode.set_vreg_fact(out, result);
        Ok(())
    }
}

fn opt_copy(f: Option<&Fact>) -> (r: Option<Fact>)
    ensures
        r == (match f {
            Some(x) => Some(*x),
            None => None,
        }),
{
    match f {
        Some(x) => Some(*x),
        None => None,
    }
}

fn dest_fact_of(vcode: &VCode, rd: Option<Reg>) -> (r: Option<Fact>)
    ensures
        r == dest_fact(vcode@, rd),
{
    match rd {
        Some(rd) => opt_copy(vcode.vreg_fact(rd)),
        None => None,
    }
}

/// A load through `addr` into `rd` (none for a floating-point or vector
/// destination).
pub fn check_load(
    ctx: &FactContext,
    rd: Option<Reg>,
    flags: MemFlags,
    addr: &AMode,
    vcode: &VCode,
    ty: Type,
) -> (r: PccResult<()>)
    ensures
        r == load_spec(*ctx, vcode@, rd, flags, *addr, ty),
{
    reveal(load_spec);
    let result_fact = dest_fact_of(vcode, rd);
    check_addr(ctx, flags, addr, vcode, ty, LoadOrStore::Load { result_fact })
}

/// A store through `addr` of `rd` (none for a floating-point or vector
/// source).
pub fn check_store(
    ctx: &FactContext,
    rd: Option<Reg>,
    flags: MemFlags,
    addr: &AMode,
    vcode: &VCode,
    ty: Type,
) -> (r: PccResult<()>)
    ensures
        r == store_spec(*ctx, vcode@, rd, flags, *addr, ty),
{
    reveal(store_spec);
    let stored_fact = dest_fact_of(vcode, rd);
    check_addr(ctx, flags, addr, vcode, ty, LoadOrStore::Store { stored_fact })
}

fn check_access(ctx: &FactContext, addr: &Fact, ty: Type, op: LoadOrStore) -> (r: PccResult<()>)
    ensures
        r == crate::check_spec::access_spec(*ctx, *addr, ty, op),
{
    match op {
        LoadOrStore::Load { result_fact } => {
            let loaded_fact = ctx.load(addr, ty)?;
            let declared = match &result_fact {
                Some(f) => Some(f),
                None => None,
            };
            if ctx.subsumes_fact_optionals(&loaded_fact, declared) {
                Ok(())
            } else {
                Err(PccError::UnsupportedFact)
            }
        },
        LoadOrStore::Store { stored_fact } => {
            let stored = match &stored_fact {
                Some(f) => Some(f),
                None => None,
            };
            ctx.store(addr, ty, stored)
        },
    }
}

/// Checks a checked memory access through the addressing mode `addr`;
/// unchecked accesses pass.
pub fn check_addr(
    ctx: &FactContext,
    flags: MemFlags,
    addr: &AMode,
    vcode: &VCode,
    ty: Type,
    op: LoadOrStore,
) -> (r: PccResult<()>)
    ensures
        r == addr_spec(*ctx, vcode@, flags, *addr, ty, op),
{
    if !flags.checked() {
        return Ok(());
    }
    match *addr {
        AMode::RegReg { rn, rm } => {
            let rn = get_fact_or_default(vcode, rn)?;
            let rm = get_fact_or_default(vcode, rm)?;
            let sum = fail_if_missing(ctx.add(&rn, &rm, 64))?;
            check_access(ctx, &sum, ty, op)
        },
        AMode::RegScaled { rn, rm, ty } => {
            let rn = get_fact_or_default(vcode, rn)?;
            let rm = get_fact_or_default(vcode, rm)?;
            let rm_scaled = fail_if_missing(ctx.scale(&rm, 64, ty.bytes()))?;
            let sum = fail_if_missing(ctx.add(&rn, &rm_scaled, 64))?;
            check_access(ctx, &sum, ty, op)
        },
        AMode::RegScaledExtended { rn, rm, ty, extendop } => {
            let rn = get_fact_or_default(vcode, rn)?;
            let rm = get_fact_or_default(vcode, rm)?;
            let rm_extended = fail_if_missing(extend_fact(ctx, &rm, extendop))?;
            let rm_scaled = fail_if_missing(ctx.scale(&rm_extended, 64, ty.bytes()))?;
            let sum = fail_if_missing(ctx.add(&rn, &rm_scaled, 64))?;
            check_access(ctx, &sum, ty, op)
        },
        AMode::RegExtended { rn, rm, extendop } => {
            let rn = get_fact_or_default(vcode, rn)?;
            let rm = get_fact_or_default(vcode, rm)?;
            let rm_extended = fail_if_missing(extend_fact(ctx, &rm, extendop))?;
            let sum = fail_if_missing(ctx.add(&rn, &rm_extended, 64))?;
            check_access(ctx, &sum, ty, op)
        },
        AMode::Unscaled { rn, simm9 } => {
            let rn = get_fact_or_default(vcode, rn)?;
            let sum = fail_if_missing(ctx.offset(&rn, 64, simm9 as i64))?;
            check_access(ctx, &sum, ty, op)
        },
        AMode::UnsignedOffset { rn, uimm12 } => {
            let rn = get_fact_or_default(vcode, rn)?;
            // The immediate is stored already scaled by the access size.
            let sum = fail_if_missing(ctx.offset(&rn, 64, uimm12 as i64))?;
            check_access(ctx, &sum, ty, op)
        },
        AMode::Label { .. } | AMode::Const { .. } => {
            // Labels and constants lie within the generated code.
            Ok(())
        },
        AMode::RegOffset { rn, off, .. } => {
            let rn = get_fact_or_default(vcode, rn)?;
            let sum = fail_if_missing(ctx.offset(&rn, 64, off))?;
            check_access(ctx, &sum, ty, op)
        },
        AMode::SPOffset { .. }
        | AMode::FPOffset { .. }
        | AMode::NominalSPOffset { .. }
        | AMode::SPPostIndexed { .. }
        | AMode::SPPreIndexed { .. } => {
            // Stack accesses come from the ABI code, which is trusted.
            Ok(())
        },
    }
}

/// Register-pair loads are not modelled yet: always rejected.
pub fn check_load_pair(
    ctx: &FactContext,
    flags: MemFlags,
    addr: &PairAMode,
    vcode: &VCode,
    size: u8,
) -> (r: PccResult<()>)
    ensures
        r == Err::<(), PccError>(PccError::UnimplementedInst),
{
    Err(PccError::UnimplementedInst)
}

/// Register-pair stores are not modelled yet: always rejected.
pub fn check_store_pair(
    ctx: &FactContext,
    flags: MemFlags,
    addr: &PairAMode,
    vcode: &VCode,
    size: u8,
) -> (r: PccResult<()>)
    ensures
        r == Err::<(), PccError>(PccError::UnimplementedInst),
{
    Err(PccError::UnimplementedInst)
}

/// A load whose address is the bare register `reg`.
pub fn check_load_addr(ctx: &FactContext, flags: MemFlags, reg: Reg, vcode: &VCode, ty: Type) -> (r: PccResult<()>)
    ensures
        r == reg_access_spec(*ctx, vcode@, flags, reg, ty, true),
{
    reveal(reg_access_spec);
    if !flags.checked() {
        return Ok(());
    }
    let fact = get_fact_or_default(vcode, reg)?;
    let _output_fact = ctx.load(&fact, ty)?;
    Ok(())
}

/// A store whose address is the bare register `reg`.
pub fn check_store_addr(ctx: &FactContext, flags: MemFlags, reg: Reg, vcode: &VCode, ty: Type) -> (r: PccResult<()>)
    ensures
        r == reg_access_spec(*ctx, vcode@, flags, reg, ty, false),
{
    reveal(reg_access_spec);
    if !flags.checked() {
        return Ok(());
    }
    let fact = get_fact_or_default(vcode, reg)?;
    ctx.store(&fact, ty, None)?;
    Ok(())
}

/// Checks instruction `inst_idx` of `vcode`: derives or checks the facts of
/// the register it defines, and checks its memory access, if any.
pub fn check(ctx: &FactContext, vcode: &mut VCode, inst_idx: usize) -> (r: PccResult<()>)
    requires
        inst_idx < old(vcode)@.insts.len(),
        inst_well_formed(old(vcode)@.insts[inst_idx as int]),
    ensures
        (r, final(vcode)@.facts) == check_spec(*ctx, old(vcode)@, inst_idx),
        same_code(old(vcode)@, final(vcode)@),
{
    let inst = vcode.insts[inst_idx];
    match inst {
        Inst::Args => {
            // The argument registers carry the facts stated upstream: the
            // ABI code passes them through unchanged.
            Ok(())
        },
        Inst::AluRRR { .. }
        | Inst::AluRRImm12 { .. }
        | Inst::AluRRRShift { .. }
        | Inst::AluRRRExtend { .. }
        | Inst::AluRRImmLogic { .. }
        | Inst::AluRRImmShift { .. } => check_alu(ctx, vcode, &inst),
        Inst::Extend { rd, rn, signed, from_bits, to_bits } => {
            if !signed && has_fact(vcode, rn) {
                check_unop(ctx, vcode, rd, rn, UnaryRule::Uextend { from_bits: from_bits as u16, to_bits: to_bits as u16 })
            } else {
                check_unrecognized(vcode, inst_idx)
            }
        },
        Inst::MovWide { .. } | Inst::MovK { .. } => check_move(ctx, vcode, &inst),
        Inst::Other { .. } => check_unrecognized(vcode, inst_idx),
        _ => check_memory(ctx, vcode, &inst),
    }
}

/// Loads and stores: the memory access is checked; no fact changes.
fn check_memory(ctx: &FactContext, vcode: &VCode, inst: &Inst) -> (r: PccResult<()>)
    ensures
        r == memory_check_spec(*ctx, vcode@, *inst),
{
    reveal(memory_check_spec);
    match *inst {
        Inst::ULoad8 { rd, mem, flags } | Inst::SLoad8 { rd, mem, flags } => check_load(ctx, Some(rd), flags, &mem, vcode, Type::I8),
        Inst::ULoad16 { rd, mem, flags } | Inst::SLoad16 { rd, mem, flags } => check_load(ctx, Some(rd), flags, &mem, vcode, Type::I16),
        Inst::ULoad32 { rd, mem, flags } | Inst::SLoad32 { rd, mem, flags } => check_load(ctx, Some(rd), flags, &mem, vcode, Type::I32),
        Inst::ULoad64 { rd, mem, flags } => check_load(ctx, Some(rd), flags, &mem, vcode, Type::I64),
        Inst::FpuLoad32 { mem, flags, .. } => check_load(ctx, None, flags, &mem, vcode, Type::F32),
        Inst::FpuLoad64 { mem, flags, .. } => check_load(ctx, None, flags, &mem, vcode, Type::F64),
        Inst::FpuLoad128 { mem, flags, .. } => check_load(ctx, None, flags, &mem, vcode, Type::I8X16),
        Inst::LoadP64 { mem, flags, .. } => check_load_pair(ctx, flags, &mem, vcode, 16),
        Inst::FpuLoadP64 { mem, flags, .. } => check_load_pair(ctx, flags, &mem, vcode, 16),
        Inst::FpuLoadP128 { mem, flags, .. } => check_load_pair(ctx, flags, &mem, vcode, 32),
        Inst::VecLoadReplicate { rn, lane_ty, flags, .. } => check_load_addr(ctx, flags, rn, vcode, lane_ty),
        Inst::LoadAcquire { access_ty, rn, flags, .. } => check_load_addr(ctx, flags, rn, vcode, access_ty),
        Inst::Store8 { rd, mem, flags } => check_store(ctx, Some(rd), flags, &mem, vcode, Type::I8),
        Inst::Store16 { rd, mem, flags } => check_store(ctx, Some(rd), flags, &mem, vcode, Type::I16),
        Inst::Store32 { rd, mem, flags } => check_store(ctx, Some(rd), flags, &mem, vcode, Type::I32),
        Inst::Store64 { rd, mem, flags } => check_store(ctx, Some(rd), flags, &mem, vcode, Type::I64),
        Inst::FpuStore32 { mem, flags, .. } => check_store(ctx, None, flags, &mem, vcode, Type::F32),
        Inst::FpuStore64 { mem, flags, .. } => check_store(ctx, None, flags, &mem, vcode, Type::F64),
        Inst::FpuStore128 { mem, flags, .. } => check_store(ctx, None, flags, &mem, vcode, Type::I8X16),
        Inst::StoreP64 { mem, flags, .. } => check_store_pair(ctx, flags, &mem, vcode, 16),
        Inst::FpuStoreP64 { mem, flags, .. } => check_store_pair(ctx, flags, &mem, vcode, 16),
        Inst::FpuStoreP128 { mem, flags, .. } => check_store_pair(ctx, flags, &mem, vcode, 32),
        Inst::StoreRelease { access_ty, rn, flags, .. } => check_store_addr(ctx, flags, rn, vcode, access_ty),
        _ => Ok(()),
    }
}

/// Integer ALU instructions.
fn check_alu(ctx: &FactContext, vcode: &mut VCode, inst: &Inst) -> (r: PccResult<()>)
    ensures
        (r, final(vcode)@.facts) == alu_check_spec(old(vcode)@, *inst),
        same_code(old(vcode)@, final(vcode)@),
{
    reveal(alu_check_spec);
    match *inst {
        Inst::AluRRR { alu_op, size, rd, rn, rm } => {
            if alu_op == ALUOp::Add {
                check_binop(ctx, vcode, rd, rn, rm, BinaryRule::Add { width: size.bits() })
            } else {
                {
                    let ins = [rn, rm];
                    proof {
                        assert(ins@ =~= seq![rn, rm]);
                    }
                    check_fallback(ctx, vcode, rd, &ins, size.bits())
                }
            }
        },
        Inst::AluRRImm12 { alu_op, size, rd, rn, imm12 } => {
            if alu_op == ALUOp::Add {
                check_unop(ctx, vcode, rd, rn, UnaryRule::AddImm { width: size.bits(), imm: imm12.value() })
            } else {
                {
                    let ins = [rn];
                    proof {
                        assert(ins@ =~= seq![rn]);
                    }
                    check_fallback(ctx, vcode, rd, &ins, size.bits())
                }
            }
        },
        Inst::AluRRRShift { alu_op, size, rd, rn, rm, shift_op, shift_amt } => {
            if alu_op == ALUOp::Add && shift_op == ShiftOp::LSL && has_fact(vcode, rn) && has_fact(vcode, rm) {
                check_binop(ctx, vcode, rd, rn, rm, BinaryRule::AddShifted { width: size.bits(), amount: shift_amt as u64 })
            } else {
                {
                    let ins = [rn, rm];
                    proof {
                        assert(ins@ =~= seq![rn, rm]);
                    }
                    check_fallback(ctx, vcode, rd, &ins, size.bits())
                }
            }
        },
        Inst::AluRRRExtend { alu_op, size, rd, rn, rm, extendop } => {
            if alu_op == ALUOp::Add && has_fact(vcode, rn) && has_fact(vcode, rm) {
                check_binop(ctx, vcode, rd, rn, rm, BinaryRule::AddExtended { width: size.bits(), extendop })
            } else {
                {
                    let ins = [rn, rm];
                    proof {
                        assert(ins@ =~= seq![rn, rm]);
                    }
                    check_fallback(ctx, vcode, rd, &ins, size.bits())
                }
            }
        },
        Inst::AluRRImmLogic { size, rd, rn, .. } => {
                    let ins = [rn];
                    proof {
                        assert(ins@ =~= seq![rn]);
                    }
                    check_fallback(ctx, vcode, rd, &ins, size.bits())
                },
        Inst::AluRRImmShift { alu_op, size, rd, rn, immshift } => {
            if alu_op == ALUOp::Lsl && has_fact(vcode, rn) {
                check_unop(ctx, vcode, rd, rn, UnaryRule::Shl { width: size.bits(), amount: immshift as u64 })
            } else {
                {
                    let ins = [rn];
                    proof {
                        assert(ins@ =~= seq![rn]);
                    }
                    check_fallback(ctx, vcode, rd, &ins, size.bits())
                }
            }
        },
        _ => Ok(()),
    }
}

/// Move-wide and move-keep instructions, which build constants.
fn check_move(ctx: &FactContext, vcode: &mut VCode, inst: &Inst) -> (r: PccResult<()>)
    requires
        inst_well_formed(*inst),
    ensures
        (r, final(vcode)@.facts) == move_check_spec(old(vcode)@, *inst),
        same_code(old(vcode)@, final(vcode)@),
{
    reveal(move_check_spec);
    match *inst {
        Inst::MovWide { op, imm, size, rd } => {
            let chunk = (imm.bits as u64) << ((imm.shift as u64) * 16);
            match op {
                MoveWideOp::MovZ => check_constant(ctx, vcode, rd, 64, chunk),
                MoveWideOp::MovN => check_constant(ctx, vcode, rd, 64, !chunk & size.max_value()),
            }
        },
        Inst::MovK { rd, rn, imm, .. } => {
            let input = get_fact_or_default(vcode, rn)?;
            if let Some(input_constant) = input.as_const(64) {
                let constant = (imm.bits as u64) << ((imm.shift as u64) * 16);
                let constant = input_constant | constant;
                check_constant(ctx, vcode, rd, 64, constant)
            } else {
                let ins: [Reg; 0] = [];
                proof {
                    assert(ins@ =~= seq![]);
                }
                check_output(ctx, vcode, rd, &ins, Ok(Fact::max_range_for_width(64)))
            }
        },
        _ => Ok(()),
    }
}

/// Checks every instruction of `vcode` in program order and stops at the
/// first failure, which comes back with the index of its instruction.
pub fn check_function(ctx: &FactContext, vcode: &mut VCode) -> (r: Result<(), (usize, PccError)>)
    requires
        forall|i: int| 0 <= i < old(vcode)@.insts.len() ==> inst_well_formed(#[trigger] old(vcode)@.insts[i]),
    ensures
        (r, final(vcode)@.facts) == check_from(*ctx, old(vcode)@, 0),
        same_code(old(vcode)@, final(vcode)@),
{
    let mut i: usize = 0;
    while i < vcode.insts.len()
        invariant
            i <= vcode@.insts.len(),
            same_code(old(vcode)@, vcode@),
            forall|j: int| 0 <= j < vcode@.insts.len() ==> inst_well_formed(#[trigger] vcode@.insts[j]),
            check_from(*ctx, old(vcode)@, 0) == check_from(*ctx, vcode@, i as nat),
        decreases vcode@.insts.len() - i,
    {
        let ghost before = vcode@;
        let r = check(ctx, vcode, i);
        proof {
            assert(vcode@ == VCodeView { facts: check_spec(*ctx, before, i).1, ..before });
        }
        if let Err(e) = r {
            return Err((i, e));
        }
        i += 1;
    }
    Ok(())
}

/// Any ALU result lies in the universal range of its width.
fn check_fallback(ctx: &FactContext, vcode: &mut VCode, rd: Reg, ins: &[Reg], bits: u16) -> (r: PccResult<()>)
    ensures
        (r, final(vcode)@.facts) == crate::check_spec::fallback_spec(old(vcode)@, rd, ins@, bits),
        same_code(old(vcode)@, final(vcode)@),
{
    reveal(crate::check_spec::fallback_spec);
    check_output(ctx, vcode, rd, ins, Ok(Fact::max_range_for_width(bits)))
}

/// An instruction that no rule covers fails exactly when its result must
/// carry a fact.
fn check_unrecognized(vcode: &VCode, inst_idx: usize) -> (r: PccResult<()>)
    ensures
        (r, vcode@.facts) == crate::check_spec::default_spec(vcode@, inst_idx),
{
    reveal(crate::check_spec::default_spec);
    if vcode.inst_defines_facts(inst_idx) {
        Err(PccError::UnsupportedFact)
    } else {
        Ok(())
    }
}

} // verus!
