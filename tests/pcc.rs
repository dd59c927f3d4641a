use aarch64_pcc::check::{check, check_addr};
use aarch64_pcc::check_spec::LoadOrStore;
use aarch64_pcc::context::{FactContext, MemoryRegion};
use aarch64_pcc::fact::{Fact, PccError};
use aarch64_pcc::inst::{
    ALUOp, AMode, ExtendOp, Imm12, Inst, MemFlags, MoveWideConst, MoveWideOp, OperandSize,
    PairAMode, ShiftOp,
};
use aarch64_pcc::types::Type;
use aarch64_pcc::vcode::VCode;

const CHECKED: MemFlags = MemFlags { checked: true };
const UNCHECKED: MemFlags = MemFlags { checked: false };

fn vcode(insts: Vec<Inst>, regs: Vec<(Type, Option<Fact>)>) -> VCode {
    let n = insts.len();
    VCode {
        insts,
        vreg_types: regs.iter().map(|r| r.0).collect(),
        facts: regs.iter().map(|r| r.1).collect(),
        fact_required: vec![false; n],
    }
}

fn no_regions() -> FactContext {
    FactContext::new(vec![])
}

fn one_region(size: u64, element: Option<Fact>) -> FactContext {
    FactContext::new(vec![MemoryRegion { size, element }])
}

fn add_rrr(rd: usize, rn: usize, rm: usize) -> Inst {
    Inst::AluRRR { alu_op: ALUOp::Add, size: OperandSize::Size64, rd, rn, rm }
}

#[test]
fn subsumes_is_reflexive() {
    let ctx = no_regions();
    let facts = [
        Fact::constant(32, 7),
        Fact::max_range_for_width(64),
        Fact::Range { bit_width: 16, min: 3, max: 900 },
        Fact::Mem { region: 2, min_offset: 4, max_offset: 40 },
    ];
    for f in facts.iter() {
        assert!(ctx.subsumes(f, f));
    }
}

#[test]
fn constant_within_max_range() {
    let ctx = no_regions();
    assert!(ctx.subsumes(&Fact::constant(8, 200), &Fact::max_range_for_width(8)));
    assert!(!ctx.subsumes(&Fact::max_range_for_width(8), &Fact::constant(8, 200)));
    assert!(ctx.subsumes(&Fact::constant(64, u64::MAX), &Fact::max_range_for_width(64)));
    assert!(ctx.subsumes(&Fact::max_range_for_width(0), &Fact::constant(0, 0)));
}

#[test]
fn max_range_values() {
    assert_eq!(Fact::max_range_for_width(8), Fact::Range { bit_width: 8, min: 0, max: 255 });
    assert_eq!(
        Fact::max_range_for_width(32),
        Fact::Range { bit_width: 32, min: 0, max: 0xffff_ffff }
    );
    assert_eq!(
        Fact::max_range_for_width(64),
        Fact::Range { bit_width: 64, min: 0, max: u64::MAX }
    );
}

#[test]
fn add_of_constants() {
    let ctx = no_regions();
    assert_eq!(
        ctx.add(&Fact::constant(32, 5), &Fact::constant(32, 7), 32),
        Some(Fact::constant(32, 12))
    );
}

#[test]
fn add_that_may_wrap_gives_max_range() {
    let ctx = no_regions();
    assert_eq!(
        ctx.add(&Fact::constant(32, 0xffff_ffff), &Fact::constant(32, 1), 32),
        Some(Fact::max_range_for_width(32))
    );
}

#[test]
fn add_moves_pointer_within_region() {
    let ctx = no_regions();
    let p = Fact::Mem { region: 0, min_offset: 8, max_offset: 8 };
    let i = Fact::Range { bit_width: 64, min: 0, max: 16 };
    assert_eq!(
        ctx.add(&p, &i, 64),
        Some(Fact::Mem { region: 0, min_offset: 8, max_offset: 24 })
    );
    assert_eq!(ctx.add(&i, &p, 64), Some(Fact::Mem { region: 0, min_offset: 8, max_offset: 24 }));
    assert_eq!(ctx.add(&p, &i, 32), None);
    assert_eq!(ctx.add(&p, &p, 64), None);
}

#[test]
fn offset_scale_shl() {
    let ctx = no_regions();
    let r = Fact::Range { bit_width: 64, min: 2, max: 10 };
    assert_eq!(ctx.offset(&r, 64, -2), Some(Fact::Range { bit_width: 64, min: 0, max: 8 }));
    assert_eq!(ctx.offset(&r, 64, -3), Some(Fact::max_range_for_width(64)));
    assert_eq!(ctx.scale(&r, 64, 8), Some(Fact::Range { bit_width: 64, min: 16, max: 80 }));
    assert_eq!(ctx.shl(&r, 64, 4), Some(Fact::Range { bit_width: 64, min: 32, max: 160 }));
    assert_eq!(ctx.shl(&r, 8, 5), Some(Fact::max_range_for_width(8)));
    let p = Fact::Mem { region: 0, min_offset: 8, max_offset: 8 };
    assert_eq!(ctx.offset(&p, 64, -8), Some(Fact::Mem { region: 0, min_offset: 0, max_offset: 0 }));
    assert_eq!(ctx.offset(&p, 64, -9), None);
    assert_eq!(ctx.scale(&p, 64, 2), None);
}

#[test]
fn extensions() {
    let ctx = no_regions();
    let r = Fact::Range { bit_width: 32, min: 1, max: 100 };
    assert_eq!(ctx.uextend(&r, 32, 64), Some(Fact::Range { bit_width: 64, min: 1, max: 100 }));
    assert_eq!(ctx.uextend(&r, 8, 64), Some(Fact::Range { bit_width: 64, min: 1, max: 100 }));
    assert_eq!(ctx.uextend(&r, 4, 64), Some(Fact::Range { bit_width: 64, min: 0, max: 15 }));
    assert_eq!(ctx.sextend(&r, 8, 64), Some(Fact::Range { bit_width: 64, min: 1, max: 100 }));
    assert_eq!(ctx.sextend(&Fact::constant(8, 200), 8, 64), None);
    assert_eq!(ctx.uextend(&r, 64, 32), None);
}

#[test]
fn add_with_unfactored_inputs_meets_declared_max_range() {
    let ctx = no_regions();
    let mut vc = vcode(
        vec![add_rrr(2, 0, 1)],
        vec![(Type::I64, None), (Type::I64, None), (Type::I64, Some(Fact::max_range_for_width(64)))],
    );
    assert_eq!(check(&ctx, &mut vc, 0), Ok(()));
}

#[test]
fn add_with_wrong_declared_constant_is_rejected() {
    let ctx = no_regions();
    let mut vc = vcode(
        vec![add_rrr(2, 0, 1)],
        vec![
            (Type::I64, Some(Fact::constant(64, 20))),
            (Type::I64, Some(Fact::constant(64, 21))),
            (Type::I64, Some(Fact::constant(64, 42))),
        ],
    );
    assert_eq!(check(&ctx, &mut vc, 0), Err(PccError::UnsupportedFact));
    vc.facts[2] = Some(Fact::constant(64, 41));
    assert_eq!(check(&ctx, &mut vc, 0), Ok(()));
}

#[test]
fn add_derives_fact_from_propagating_input() {
    let ctx = no_regions();
    let mut vc = vcode(
        vec![Inst::AluRRImm12 {
            alu_op: ALUOp::Add,
            size: OperandSize::Size64,
            rd: 1,
            rn: 0,
            imm12: Imm12 { bits: 16, shift12: false },
        }],
        vec![(Type::I64, Some(Fact::Mem { region: 0, min_offset: 0, max_offset: 8 })), (Type::I64, None)],
    );
    assert_eq!(check(&ctx, &mut vc, 0), Ok(()));
    assert_eq!(vc.facts[1], Some(Fact::Mem { region: 0, min_offset: 16, max_offset: 24 }));
}

#[test]
fn add_without_propagating_input_sets_no_fact() {
    let ctx = no_regions();
    let mut vc = vcode(
        vec![add_rrr(2, 0, 1)],
        vec![(Type::I64, None), (Type::I64, Some(Fact::max_range_for_width(64))), (Type::I64, None)],
    );
    assert_eq!(check(&ctx, &mut vc, 0), Ok(()));
    assert_eq!(vc.facts[2], None);
}

#[test]
fn shifted_and_extended_adds() {
    let ctx = no_regions();
    let base = Fact::Mem { region: 0, min_offset: 0, max_offset: 0 };
    let idx = Fact::Range { bit_width: 32, min: 0, max: 10 };
    let mut vc = vcode(
        vec![
            Inst::AluRRRShift {
                alu_op: ALUOp::Add,
                size: OperandSize::Size64,
                rd: 2,
                rn: 0,
                rm: 1,
                shift_op: ShiftOp::LSL,
                shift_amt: 3,
            },
            Inst::AluRRRExtend {
                alu_op: ALUOp::Add,
                size: OperandSize::Size64,
                rd: 3,
                rn: 0,
                rm: 1,
                extendop: ExtendOp::UXTW,
            },
            Inst::AluRRRExtend {
                alu_op: ALUOp::Add,
                size: OperandSize::Size64,
                rd: 4,
                rn: 0,
                rm: 1,
                extendop: ExtendOp::SXTX,
            },
        ],
        vec![
            (Type::I64, Some(base)),
            (Type::I32, Some(idx)),
            (Type::I64, None),
            (Type::I64, None),
            (Type::I64, Some(Fact::Mem { region: 0, min_offset: 0, max_offset: 10 })),
        ],
    );
    assert_eq!(check(&ctx, &mut vc, 0), Ok(()));
    assert_eq!(vc.facts[2], Some(Fact::Mem { region: 0, min_offset: 0, max_offset: 80 }));
    assert_eq!(check(&ctx, &mut vc, 1), Ok(()));
    assert_eq!(vc.facts[3], Some(Fact::Mem { region: 0, min_offset: 0, max_offset: 10 }));
    // Sign-extending a full 64-bit register is not modelled.
    assert_eq!(check(&ctx, &mut vc, 2), Err(PccError::UnsupportedFact));
}

#[test]
fn other_alu_ops_fall_back_to_max_range() {
    let ctx = no_regions();
    let sub = Inst::AluRRR { alu_op: ALUOp::Sub, size: OperandSize::Size32, rd: 2, rn: 0, rm: 1 };
    let mut vc = vcode(
        vec![sub],
        vec![(Type::I32, None), (Type::I32, None), (Type::I32, Some(Fact::max_range_for_width(32)))],
    );
    assert_eq!(check(&ctx, &mut vc, 0), Ok(()));
    vc.facts[2] = Some(Fact::constant(32, 3));
    assert_eq!(check(&ctx, &mut vc, 0), Err(PccError::UnsupportedFact));
}

#[test]
fn lsl_and_zero_extend() {
    let ctx = no_regions();
    let mut vc = vcode(
        vec![
            Inst::AluRRImmShift { alu_op: ALUOp::Lsl, size: OperandSize::Size64, rd: 1, rn: 0, immshift: 2 },
            Inst::Extend { rd: 2, rn: 0, signed: false, from_bits: 32, to_bits: 64 },
        ],
        vec![
            (Type::I32, Some(Fact::Range { bit_width: 32, min: 1, max: 3 })),
            (Type::I64, None),
            (Type::I64, None),
        ],
    );
    assert_eq!(check(&ctx, &mut vc, 0), Ok(()));
    assert_eq!(vc.facts[1], Some(Fact::Range { bit_width: 64, min: 4, max: 12 }));
    assert_eq!(check(&ctx, &mut vc, 1), Ok(()));
    assert_eq!(vc.facts[2], Some(Fact::Range { bit_width: 64, min: 1, max: 3 }));
}

#[test]
fn movz_then_movk_builds_constant() {
    let ctx = no_regions();
    let mut vc = vcode(
        vec![
            Inst::MovWide {
                op: MoveWideOp::MovZ,
                imm: MoveWideConst { bits: 0x1234, shift: 0 },
                size: OperandSize::Size64,
                rd: 0,
            },
            Inst::MovK { rd: 1, rn: 0, imm: MoveWideConst { bits: 0x5678, shift: 1 }, size: OperandSize::Size64 },
        ],
        vec![(Type::I64, None), (Type::I64, None)],
    );
    assert_eq!(check(&ctx, &mut vc, 0), Ok(()));
    assert_eq!(vc.facts[0], Some(Fact::constant(64, 0x1234)));
    assert_eq!(check(&ctx, &mut vc, 1), Ok(()));
    assert_eq!(vc.facts[1], Some(Fact::constant(64, 0x5678_1234)));
}

#[test]
fn movn_inverts_within_size() {
    let ctx = no_regions();
    let mut vc = vcode(
        vec![
            Inst::MovWide {
                op: MoveWideOp::MovN,
                imm: MoveWideConst { bits: 0, shift: 0 },
                size: OperandSize::Size32,
                rd: 0,
            },
            Inst::MovWide {
                op: MoveWideOp::MovN,
                imm: MoveWideConst { bits: 0xff, shift: 1 },
                size: OperandSize::Size64,
                rd: 1,
            },
        ],
        vec![(Type::I64, None), (Type::I64, None)],
    );
    assert_eq!(check(&ctx, &mut vc, 0), Ok(()));
    assert_eq!(vc.facts[0], Some(Fact::constant(64, 0xffff_ffff)));
    assert_eq!(check(&ctx, &mut vc, 1), Ok(()));
    assert_eq!(vc.facts[1], Some(Fact::constant(64, 0xffff_ffff_ff00_ffff)));
}

#[test]
fn movk_on_unknown_input_checks_max_range() {
    let ctx = no_regions();
    let movk = Inst::MovK { rd: 1, rn: 0, imm: MoveWideConst { bits: 1, shift: 2 }, size: OperandSize::Size64 };
    let mut vc = vcode(vec![movk], vec![(Type::I64, None), (Type::I64, Some(Fact::constant(64, 5)))]);
    assert_eq!(check(&ctx, &mut vc, 0), Err(PccError::UnsupportedFact));
    let mut vc = vcode(vec![movk], vec![(Type::F64, None), (Type::I64, None)]);
    assert_eq!(check(&ctx, &mut vc, 0), Err(PccError::MissingFact));
}

#[test]
fn unchecked_accesses_always_pass() {
    let ctx = no_regions();
    let amodes = [
        AMode::RegReg { rn: 0, rm: 1 },
        AMode::RegScaled { rn: 0, rm: 1, ty: Type::I64 },
        AMode::RegScaledExtended { rn: 0, rm: 1, ty: Type::I32, extendop: ExtendOp::SXTX },
        AMode::RegExtended { rn: 0, rm: 1, extendop: ExtendOp::UXTW },
        AMode::Unscaled { rn: 0, simm9: -4 },
        AMode::UnsignedOffset { rn: 0, uimm12: 64 },
        AMode::RegOffset { rn: 0, off: 12, ty: Type::I8 },
    ];
    for mem in amodes.iter() {
        let insts = vec![
            Inst::ULoad64 { rd: 2, mem: *mem, flags: UNCHECKED },
            Inst::Store32 { rd: 2, mem: *mem, flags: UNCHECKED },
            Inst::FpuLoad64 { rd: 2, mem: *mem, flags: UNCHECKED },
        ];
        let mut vc = vcode(insts, vec![(Type::F64, None), (Type::F64, None), (Type::I64, Some(Fact::constant(64, 1)))]);
        for i in 0..3 {
            assert_eq!(check(&ctx, &mut vc, i), Ok(()));
        }
    }
    let mut vc = vcode(
        vec![
            Inst::LoadAcquire { access_ty: Type::I64, rt: 1, rn: 0, flags: UNCHECKED },
            Inst::StoreRelease { access_ty: Type::I64, rt: 1, rn: 0, flags: UNCHECKED },
        ],
        vec![(Type::F64, None), (Type::I64, None)],
    );
    assert_eq!(check(&ctx, &mut vc, 0), Ok(()));
    assert_eq!(check(&ctx, &mut vc, 1), Ok(()));
}

#[test]
fn checked_load_without_address_fact_is_rejected() {
    let ctx = one_region(64, None);
    let mut vc = vcode(
        vec![
            Inst::ULoad64 { rd: 2, mem: AMode::Unscaled { rn: 0, simm9: 0 }, flags: CHECKED },
            Inst::ULoad64 { rd: 2, mem: AMode::Unscaled { rn: 1, simm9: 0 }, flags: CHECKED },
        ],
        vec![(Type::F64, None), (Type::I64, None), (Type::I64, None)],
    );
    assert_eq!(check(&ctx, &mut vc, 0), Err(PccError::MissingFact));
    assert_eq!(check(&ctx, &mut vc, 1), Err(PccError::UnsupportedFact));
}

#[test]
fn checked_load_in_and_out_of_bounds() {
    let ctx = one_region(16, None);
    let p = Fact::Mem { region: 0, min_offset: 0, max_offset: 0 };
    let mut vc = vcode(
        vec![
            Inst::ULoad64 { rd: 1, mem: AMode::Unscaled { rn: 0, simm9: 8 }, flags: CHECKED },
            Inst::ULoad64 { rd: 1, mem: AMode::Unscaled { rn: 0, simm9: 9 }, flags: CHECKED },
            Inst::ULoad32 { rd: 2, mem: AMode::UnsignedOffset { rn: 0, uimm12: 12 }, flags: CHECKED },
        ],
        vec![(Type::I64, Some(p)), (Type::I64, None), (Type::I32, Some(Fact::constant(32, 1)))],
    );
    assert_eq!(check(&ctx, &mut vc, 0), Ok(()));
    assert_eq!(check(&ctx, &mut vc, 1), Err(PccError::UnsupportedFact));
    // A 32-bit load yields any 32-bit value, which does not imply a constant.
    assert_eq!(check(&ctx, &mut vc, 2), Err(PccError::UnsupportedFact));
}

#[test]
fn checked_accesses_through_register_modes() {
    let ctx = one_region(32, None);
    let p = Fact::Mem { region: 0, min_offset: 0, max_offset: 0 };
    let mut vc = vcode(
        vec![
            Inst::ULoad8 { rd: 2, mem: AMode::RegReg { rn: 0, rm: 1 }, flags: CHECKED },
            Inst::ULoad64 { rd: 2, mem: AMode::RegScaled { rn: 0, rm: 1, ty: Type::I64 }, flags: CHECKED },
            Inst::ULoad64 {
                rd: 2,
                mem: AMode::RegScaledExtended { rn: 0, rm: 1, ty: Type::I64, extendop: ExtendOp::UXTW },
                flags: CHECKED,
            },
            Inst::ULoad64 {
                rd: 2,
                mem: AMode::RegExtended { rn: 0, rm: 1, extendop: ExtendOp::SXTX },
                flags: CHECKED,
            },
            Inst::ULoad64 { rd: 2, mem: AMode::RegOffset { rn: 0, off: 24, ty: Type::I64 }, flags: CHECKED },
            Inst::ULoad64 { rd: 2, mem: AMode::RegOffset { rn: 0, off: 25, ty: Type::I64 }, flags: CHECKED },
        ],
        vec![(Type::I64, Some(p)), (Type::I32, Some(Fact::Range { bit_width: 32, min: 0, max: 3 })), (Type::I64, None)],
    );
    assert_eq!(check(&ctx, &mut vc, 0), Ok(()));
    assert_eq!(check(&ctx, &mut vc, 1), Ok(()));
    assert_eq!(check(&ctx, &mut vc, 2), Ok(()));
    assert_eq!(check(&ctx, &mut vc, 3), Err(PccError::UnsupportedFact));
    assert_eq!(check(&ctx, &mut vc, 4), Ok(()));
    assert_eq!(check(&ctx, &mut vc, 5), Err(PccError::UnsupportedFact));
}

#[test]
fn loads_and_stores_meet_element_fact() {
    let element = Fact::Range { bit_width: 64, min: 0, max: 100 };
    let ctx = one_region(64, Some(element));
    let p = Fact::Mem { region: 0, min_offset: 0, max_offset: 56 };
    let mut vc = vcode(
        vec![
            Inst::ULoad64 { rd: 1, mem: AMode::Unscaled { rn: 0, simm9: 0 }, flags: CHECKED },
            Inst::Store64 { rd: 2, mem: AMode::Unscaled { rn: 0, simm9: 0 }, flags: CHECKED },
            Inst::Store64 { rd: 3, mem: AMode::Unscaled { rn: 0, simm9: 0 }, flags: CHECKED },
            Inst::Store64 { rd: 4, mem: AMode::Unscaled { rn: 0, simm9: 0 }, flags: CHECKED },
            Inst::LoadAcquire { access_ty: Type::I64, rt: 1, rn: 0, flags: CHECKED },
            Inst::StoreRelease { access_ty: Type::I64, rt: 1, rn: 5, flags: CHECKED },
        ],
        vec![
            (Type::I64, Some(p)),
            (Type::I64, Some(Fact::Range { bit_width: 64, min: 0, max: 200 })),
            (Type::I64, Some(Fact::constant(64, 7))),
            (Type::I64, Some(Fact::constant(64, 700))),
            (Type::I64, None),
            (Type::I64, Some(Fact::Mem { region: 0, min_offset: 60, max_offset: 60 })),
        ],
    );
    assert_eq!(check(&ctx, &mut vc, 0), Ok(()));
    assert_eq!(check(&ctx, &mut vc, 1), Ok(()));
    assert_eq!(check(&ctx, &mut vc, 2), Err(PccError::UnsupportedFact));
    assert_eq!(check(&ctx, &mut vc, 3), Ok(()));
    assert_eq!(check(&ctx, &mut vc, 4), Ok(()));
    assert_eq!(check(&ctx, &mut vc, 5), Err(PccError::UnsupportedFact));
}

#[test]
fn pair_accesses_are_unimplemented() {
    let ctx = no_regions();
    let insts = vec![
        Inst::LoadP64 { rt: 0, rt2: 1, mem: PairAMode::SignedOffset { reg: 2, simm7: 0 }, flags: UNCHECKED },
        Inst::FpuLoadP64 { rt: 0, rt2: 1, mem: PairAMode::SPPreIndexed { simm7: 16 }, flags: CHECKED },
        Inst::FpuLoadP128 { rt: 0, rt2: 1, mem: PairAMode::SPPostIndexed { simm7: 16 }, flags: CHECKED },
        Inst::StoreP64 { rt: 0, rt2: 1, mem: PairAMode::SignedOffset { reg: 2, simm7: 8 }, flags: CHECKED },
        Inst::FpuStoreP64 { rt: 0, rt2: 1, mem: PairAMode::SignedOffset { reg: 2, simm7: 8 }, flags: UNCHECKED },
        Inst::FpuStoreP128 { rt: 0, rt2: 1, mem: PairAMode::SPPreIndexed { simm7: -16 }, flags: CHECKED },
    ];
    let mut vc = vcode(
        insts,
        vec![
            (Type::I64, Some(Fact::constant(64, 1))),
            (Type::I64, None),
            (Type::I64, Some(Fact::Mem { region: 0, min_offset: 0, max_offset: 0 })),
        ],
    );
    for i in 0..6 {
        assert_eq!(check(&ctx, &mut vc, i), Err(PccError::UnimplementedInst));
    }
}

#[test]
fn trusted_addressing_modes_always_pass() {
    let ctx = no_regions();
    let amodes = [
        AMode::Label { label: 3 },
        AMode::Const { addr: 0 },
        AMode::SPOffset { off: 16 },
        AMode::FPOffset { off: -8 },
        AMode::NominalSPOffset { off: 32 },
        AMode::SPPostIndexed { simm9: 16 },
        AMode::SPPreIndexed { simm9: -16 },
    ];
    for mem in amodes.iter() {
        let insts = vec![
            Inst::ULoad32 { rd: 0, mem: *mem, flags: CHECKED },
            Inst::Store16 { rd: 0, mem: *mem, flags: CHECKED },
            Inst::FpuStore128 { rd: 1, mem: *mem, flags: CHECKED },
        ];
        let mut vc = vcode(insts, vec![(Type::I32, Some(Fact::constant(32, 5))), (Type::I8X16, None)]);
        for i in 0..3 {
            assert_eq!(check(&ctx, &mut vc, i), Ok(()));
        }
    }
}

#[test]
fn check_addr_on_unchecked_flags() {
    let ctx = no_regions();
    let vc = vcode(vec![], vec![]);
    let op = LoadOrStore::Load { result_fact: None };
    assert_eq!(check_addr(&ctx, UNCHECKED, &AMode::RegReg { rn: 5, rm: 6 }, &vc, Type::I64, op), Ok(()));
    assert_eq!(
        check_addr(&ctx, CHECKED, &AMode::RegReg { rn: 5, rm: 6 }, &vc, Type::I64, op),
        Err(PccError::MissingFact)
    );
}

#[test]
fn unrecognized_instructions() {
    let ctx = no_regions();
    let mut vc = vcode(
        vec![
            Inst::Other { rd: Some(0) },
            Inst::Extend { rd: 0, rn: 1, signed: true, from_bits: 8, to_bits: 64 },
            Inst::Args,
        ],
        vec![(Type::I64, None), (Type::I8, Some(Fact::constant(8, 1)))],
    );
    assert_eq!(check(&ctx, &mut vc, 0), Ok(()));
    assert_eq!(check(&ctx, &mut vc, 1), Ok(()));
    vc.fact_required = vec![true, true, true];
    assert_eq!(check(&ctx, &mut vc, 0), Err(PccError::UnsupportedFact));
    assert_eq!(check(&ctx, &mut vc, 1), Err(PccError::UnsupportedFact));
    assert_eq!(check(&ctx, &mut vc, 2), Ok(()));
}

#[test]
fn facts_inferred_from_types() {
    assert_eq!(Fact::infer_from_type(Type::I16), Some(Fact::max_range_for_width(16)));
    assert_eq!(Fact::infer_from_type(Type::F32), None);
    assert_eq!(Fact::infer_from_type(Type::I128), None);
    assert!(Fact::constant(8, 3).propagates());
    assert!(!Fact::max_range_for_width(8).propagates());
    assert!(Fact::Mem { region: 0, min_offset: 0, max_offset: 0 }.propagates());
    assert_eq!(Fact::constant(64, 9).as_const(64), Some(9));
    assert_eq!(Fact::constant(32, 9).as_const(64), None);
}

#[test]
fn function_checked_in_order_until_first_failure() {
    let ctx = one_region(16, None);
    let p = Fact::Mem { region: 0, min_offset: 0, max_offset: 0 };
    let insts = vec![
        Inst::Args,
        Inst::AluRRImm12 {
            alu_op: ALUOp::Add,
            size: OperandSize::Size64,
            rd: 1,
            rn: 0,
            imm12: Imm12 { bits: 8, shift12: false },
        },
        Inst::ULoad64 { rd: 2, mem: AMode::Unscaled { rn: 1, simm9: 0 }, flags: CHECKED },
        Inst::ULoad64 { rd: 2, mem: AMode::Unscaled { rn: 1, simm9: 8 }, flags: CHECKED },
        Inst::LoadP64 { rt: 0, rt2: 1, mem: PairAMode::SPPreIndexed { simm7: 0 }, flags: CHECKED },
    ];
    let mut vc = vcode(insts, vec![(Type::I64, Some(p)), (Type::I64, None), (Type::I64, None)]);
    assert_eq!(
        aarch64_pcc::check::check_function(&ctx, &mut vc),
        Err((3, PccError::UnsupportedFact))
    );
    assert_eq!(vc.facts[1], Some(Fact::Mem { region: 0, min_offset: 8, max_offset: 8 }));
    vc.insts.truncate(3);
    assert_eq!(aarch64_pcc::check::check_function(&ctx, &mut vc), Ok(()));
}
