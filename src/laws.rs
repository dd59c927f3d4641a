//! Properties of the fact algebra and of instruction checking.
use vstd::prelude::*;
use vstd::arithmetic::power2::{pow2, lemma2_to64_rest};
use crate::fact::{Fact, PccError, constant_fact, max_range_fact, max_value, lemma_max_value_fits};
use crate::context::{FactContext, subsumes_spec, add_spec, offset_spec, scale_spec, shl_spec, uextend_spec};
use crate::inst::{Inst, AMode, MemFlags};
use crate::vcode::VCodeView;
use crate::check_spec::{
    check_spec, memory_check_spec, load_spec, store_spec, reg_access_spec, alu_check_spec,
    move_check_spec, output_spec, constant_spec, default_spec, fallback_spec, check_from,
};

verus! {

/// Every fact implies itself.
pub proof fn lemma_subsumes_reflexive(f: Fact)
    ensures
        subsumes_spec(f, f),
{
}

/// A constant of a width implies the universal fact of that width; the
/// converse holds only where the width has a single value.
pub proof fn lemma_constant_within_max_range(w: u16, v: u64)
    requires
        w <= 64,
        (v as int) < pow2(w as nat),
    ensures
        subsumes_spec(constant_fact(w, v), max_range_fact(w)),
        subsumes_spec(max_range_fact(w), constant_fact(w, v)) <==> max_value(w) == 0,
{
    lemma_max_value_fits(w);
    lemma2_to64_rest();
}

/// The flags and addressing mode of a single-register load or store.
pub open spec fn scalar_access(inst: Inst) -> Option<(MemFlags, AMode)> {
    match inst {
        Inst::ULoad8 { mem, flags, .. }
        | Inst::SLoad8 { mem, flags, .. }
        | Inst::ULoad16 { mem, flags, .. }
        | Inst::SLoad16 { mem, flags, .. }
        | Inst::ULoad32 { mem, flags, .. }
        | Inst::SLoad32 { mem, flags, .. }
        | Inst::ULoad64 { mem, flags, .. }
        | Inst::FpuLoad32 { mem, flags, .. }
        | Inst::FpuLoad64 { mem, flags, .. }
        | Inst::FpuLoad128 { mem, flags, .. }
        | Inst::Store8 { mem, flags, .. }
        | Inst::Store16 { mem, flags, .. }
        | Inst::Store32 { mem, flags, .. }
        | Inst::Store64 { mem, flags, .. }
        | Inst::FpuStore32 { mem, flags, .. }
        | Inst::FpuStore64 { mem, flags, .. }
        | Inst::FpuStore128 { mem, flags, .. } => Some((flags, mem)),
        _ => None,
    }
}

/// The flags of a load or store whose address is a bare register.
pub open spec fn register_access_flags(inst: Inst) -> Option<MemFlags> {
    match inst {
        Inst::VecLoadReplicate { flags, .. }
        | Inst::LoadAcquire { flags, .. }
        | Inst::StoreRelease { flags, .. } => Some(flags),
        _ => None,
    }
}

pub open spec fn is_pair_access(inst: Inst) -> bool {
    match inst {
        Inst::LoadP64 { .. }
        | Inst::FpuLoadP64 { .. }
        | Inst::FpuLoadP128 { .. }
        | Inst::StoreP64 { .. }
        | Inst::FpuStoreP64 { .. }
        | Inst::FpuStoreP128 { .. } => true,
        _ => false,
    }
}

/// Addressing modes resolved inside the code image or relative to the stack.
pub open spec fn is_trusted_amode(amode: AMode) -> bool {
    match amode {
        AMode::Label { .. }
        | AMode::Const { .. }
        | AMode::SPOffset { .. }
        | AMode::FPOffset { .. }
        | AMode::NominalSPOffset { .. }
        | AMode::SPPostIndexed { .. }
        | AMode::SPPreIndexed { .. } => true,
        _ => false,
    }
}

/// A load or store that is not marked checked is accepted, whatever its
/// addressing mode and whatever facts its registers carry, and it changes
/// no fact.
pub proof fn lemma_unchecked_access_accepted(ctx: FactContext, vc: VCodeView, idx: usize)
    requires
        idx < vc.insts.len(),
        match scalar_access(vc.insts[idx as int]) {
            Some((flags, _)) => !flags.checked,
            None => match register_access_flags(vc.insts[idx as int]) {
                Some(flags) => !flags.checked,
                None => false,
            },
        },
    ensures
        check_spec(ctx, vc, idx) == (Ok::<(), PccError>(()), vc.facts),
{
    reveal(memory_check_spec);
    reveal(load_spec);
    reveal(store_spec);
    reveal(reg_access_spec);
}

/// A load or store of a register pair is rejected as unimplemented,
/// whatever its operands.
pub proof fn lemma_pair_access_rejected(ctx: FactContext, vc: VCodeView, idx: usize)
    requires
        idx < vc.insts.len(),
        is_pair_access(vc.insts[idx as int]),
    ensures
        check_spec(ctx, vc, idx) == (Err::<(), PccError>(PccError::UnimplementedInst), vc.facts),
{
    reveal(memory_check_spec);
}

/// A load or store through a label, a constant-pool entry or a stack- or
/// frame-relative address is accepted, whatever facts its registers carry.
pub proof fn lemma_trusted_amode_accepted(ctx: FactContext, vc: VCodeView, idx: usize)
    requires
        idx < vc.insts.len(),
        match scalar_access(vc.insts[idx as int]) {
            Some((_, amode)) => is_trusted_amode(amode),
            None => false,
        },
    ensures
        check_spec(ctx, vc, idx) == (Ok::<(), PccError>(()), vc.facts),
{
    reveal(memory_check_spec);
    reveal(load_spec);
    reveal(store_spec);
}

/// Checking an instruction never removes or replaces a fact: it may only
/// give a fact to a register that had none.
pub proof fn lemma_check_only_adds_facts(ctx: FactContext, vc: VCodeView, idx: usize)
    requires
        idx < vc.insts.len(),
    ensures
        check_spec(ctx, vc, idx).1.len() == vc.facts.len(),
        forall|r: int|
            0 <= r < vc.facts.len() && (#[trigger] vc.facts[r]) is Some ==> check_spec(
                ctx,
                vc,
                idx,
            ).1[r] == vc.facts[r],
{
    reveal(memory_check_spec);
    reveal(alu_check_spec);
    reveal(move_check_spec);
    reveal(output_spec);
    reveal(constant_spec);
    reveal(default_spec);
    reveal(fallback_spec);
}

/// Over a whole run of instructions, as over one, facts are only added:
/// a register that had a fact keeps it.
pub proof fn lemma_run_only_adds_facts(ctx: FactContext, vc: VCodeView, i: nat)
    ensures
        check_from(ctx, vc, i).1.len() == vc.facts.len(),
        forall|r: int|
            0 <= r < vc.facts.len() && (#[trigger] vc.facts[r]) is Some ==> check_from(ctx, vc, i).1[r]
                == vc.facts[r],
    decreases vc.insts.len() - i,
{
    if i < vc.insts.len() {
        lemma_check_only_adds_facts(ctx, vc, i as usize);
        let (r, facts) = check_spec(ctx, vc, i as usize);
        if r is Ok {
            let next = VCodeView { facts, ..vc };
            lemma_run_only_adds_facts(ctx, next, i + 1);
            assert forall|k: int| 0 <= k < vc.facts.len() && (#[trigger] vc.facts[k]) is Some implies check_from(
                ctx,
                vc,
                i,
            ).1[k] == vc.facts[k] by {
                assert(next.facts[k] == vc.facts[k]);
            }
        }
    }
}

/// Whether the value `v` agrees with the range fact `f`.
pub open spec fn range_admits(f: Fact, v: int) -> bool {
    match f {
        Fact::Range { min, max, .. } => min <= v <= max,
        Fact::Mem { .. } => false,
    }
}

/// The value `v` reduced to `width` bits, as machine arithmetic leaves it.
pub open spec fn wrap(v: int, width: u16) -> int {
    v % (pow2(width as nat) as int)
}

proof fn lemma_wrap_bounds(v: int, width: u16)
    requires
        width <= 64,
    ensures
        0 <= wrap(v, width) <= max_value(width),
        0 <= v <= max_value(width) ==> wrap(v, width) == v,
{
    lemma_max_value_fits(width);
    lemma2_to64_rest();
    vstd::arithmetic::power2::lemma_pow2_pos(width as nat);
    vstd::arithmetic::div_mod::lemma_mod_bound(v, pow2(width as nat) as int);
    if 0 <= v <= max_value(width) {
        vstd::arithmetic::div_mod::lemma_small_mod(v as nat, pow2(width as nat));
    }
}

/// A value implies a derived range fact when it fits that fact's bounds
/// or the fact is the universal one of its width.
proof fn lemma_exact_or_max_admits(width: u16, lo: int, hi: int, v: int)
    requires
        width <= 64,
        lo <= v <= hi,
    ensures
        range_admits(crate::context::exact_or_max(width, lo, hi), wrap(v, width)),
{
    lemma_max_value_fits(width);
    lemma_wrap_bounds(v, width);
}

/// A declared range is met by every value that a range implying it admits.
pub proof fn lemma_subsumes_sound(candidate: Fact, declared: Fact, v: int)
    requires
        candidate is Range,
        declared is Range,
        subsumes_spec(candidate, declared),
        range_admits(candidate, v),
    ensures
        range_admits(declared, v),
{
}

/// The sum of two ranges holds of every wrapped sum of their values.
pub proof fn lemma_add_sound(a: Fact, b: Fact, width: u16, x: int, y: int)
    requires
        range_admits(a, x),
        range_admits(b, y),
        add_spec(a, b, width) is Some,
    ensures
        range_admits(add_spec(a, b, width)->Some_0, wrap(x + y, width)),
{
    if let (Fact::Range { min: min1, max: max1, .. }, Fact::Range { min: min2, max: max2, .. }) = (a, b) {
        lemma_exact_or_max_admits(width, min1 + min2, max1 + max2, x + y);
    }
}

/// A range moved by a constant holds of every wrapped moved value.
pub proof fn lemma_offset_sound(a: Fact, width: u16, delta: i64, x: int)
    requires
        range_admits(a, x),
        offset_spec(a, width, delta) is Some,
    ensures
        range_admits(offset_spec(a, width, delta)->Some_0, wrap(x + delta, width)),
{
    if let Fact::Range { min, max, .. } = a {
        lemma_exact_or_max_admits(width, min + delta, max + delta, x + delta);
    }
}

/// A scaled range holds of every wrapped scaled value.
pub proof fn lemma_scale_sound(a: Fact, width: u16, factor: u32, x: int)
    requires
        range_admits(a, x),
        scale_spec(a, width, factor) is Some,
    ensures
        range_admits(scale_spec(a, width, factor)->Some_0, wrap(x * factor, width)),
{
    if let Fact::Range { min, max, .. } = a {
        vstd::arithmetic::mul::lemma_mul_inequality(min as int, x, factor as int);
        vstd::arithmetic::mul::lemma_mul_inequality(x, max as int, factor as int);
        lemma_exact_or_max_admits(width, min * factor, max * factor, x * factor);
    }
}

/// A shifted range holds of every wrapped shifted value.
pub proof fn lemma_shl_sound(a: Fact, width: u16, amount: u64, x: int)
    requires
        range_admits(a, x),
        shl_spec(a, width, amount) is Some,
    ensures
        range_admits(shl_spec(a, width, amount)->Some_0, wrap(x * pow2(amount as nat), width)),
{
    if let Fact::Range { min, max, .. } = a {
        let p = pow2(amount as nat) as int;
        vstd::arithmetic::power2::lemma_pow2_pos(amount as nat);
        vstd::arithmetic::mul::lemma_mul_inequality(min as int, x, p);
        vstd::arithmetic::mul::lemma_mul_inequality(x, max as int, p);
        if amount < 64 {
            lemma_exact_or_max_admits(width, min * p, max * p, x * p);
        } else {
            lemma_max_value_fits(width);
            lemma_wrap_bounds(x * p, width);
        }
    }
}

/// A zero-extended range holds of the low `from_bits` bits of every value.
pub proof fn lemma_uextend_sound(a: Fact, from_bits: u16, to_bits: u16, x: int)
    requires
        range_admits(a, x),
        0 <= x,
        uextend_spec(a, from_bits, to_bits) is Some,
    ensures
        range_admits(uextend_spec(a, from_bits, to_bits)->Some_0, wrap(x, from_bits)),
{
    lemma_wrap_bounds(x, from_bits);
}

} // verus!
