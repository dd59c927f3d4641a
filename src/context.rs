use vstd::prelude::*;
use vstd::arithmetic::power2::{pow2, lemma2_to64, lemma2_to64_rest, lemma_pow2_pos};
use crate::types::{Type, type_bytes};
use crate::fact::{Fact, PccError, PccResult, max_value, max_range_fact, max_value_for_width};

verus! {

/// A memory region that `Mem` facts point into: `size` valid bytes, and,
/// where one is declared, a fact that every value stored in it satisfies.
#[derive(Clone, Copy, Debug)]
pub struct MemoryRegion {
    pub size: u64,
    pub element: Option<Fact>,
}

/// The fact algebra: arithmetic on facts, subsumption, and the bridge from a
/// pointer fact to the fact of a value loaded or stored through it. Its only
/// state is the table of memory regions that `Mem` facts name.
pub struct FactContext {
    pub regions: Vec<MemoryRegion>,
}

/// `candidate` is at least as strong a guarantee as `declared`. A declared
/// `Mem` fact is satisfied by any candidate.
pub open spec fn subsumes_spec(candidate: Fact, declared: Fact) -> bool {
    match (candidate, declared) {
        (_, Fact::Mem { .. }) => true,
        (
            Fact::Range { bit_width: w1, min: min1, max: max1 },
            Fact::Range { bit_width: w2, min: min2, max: max2 },
        ) => w1 <= w2 && min2 <= min1 && max1 <= max2,
        _ => false,
    }
}

/// An absent declared fact puts no obligation on the derived one.
pub open spec fn subsumes_optionals_spec(derived: Fact, declared: Option<Fact>) -> bool {
    match declared {
        Some(d) => subsumes_spec(derived, d),
        None => true,
    }
}

/// The range `lo..=hi` at width `width` when it fits that width, else the
/// universal fact of the width (the operation may have wrapped around).
pub open spec fn exact_or_max(width: u16, lo: int, hi: int) -> Fact {
    if 0 <= lo && lo <= max_value(width) && 0 <= hi && hi <= max_value(width) {
        Fact::Range { bit_width: width, min: lo as u64, max: hi as u64 }
    } else {
        max_range_fact(width)
    }
}

/// A pointer moved by `lo..=hi` within its region, when the offsets stay
/// in `0..=u64::MAX`.
pub open spec fn mem_moved(region: u32, min_offset: u64, max_offset: u64, lo: int, hi: int) -> Option<Fact> {
    let a = min_offset + lo;
    let b = max_offset + hi;
    if 0 <= a <= u64::MAX && 0 <= b <= u64::MAX {
        Some(Fact::Mem { region, min_offset: a as u64, max_offset: b as u64 })
    } else {
        None
    }
}

pub open spec fn add_spec(a: Fact, b: Fact, width: u16) -> Option<Fact> {
    if width > 64 {
        None
    } else {
        match (a, b) {
            (Fact::Range { min: min1, max: max1, .. }, Fact::Range { min: min2, max: max2, .. }) => {
                Some(exact_or_max(width, min1 + min2, max1 + max2))
            },
            (Fact::Mem { region, min_offset, max_offset }, Fact::Range { min, max, .. })
            | (Fact::Range { min, max, .. }, Fact::Mem { region, min_offset, max_offset }) => {
                if width == 64 {
                    mem_moved(region, min_offset, max_offset, min as int, max as int)
                } else {
                    None
                }
            },
            _ => None,
        }
    }
}

pub open spec fn offset_spec(a: Fact, width: u16, delta: i64) -> Option<Fact> {
    if width > 64 {
        None
    } else {
        match a {
            Fact::Range { min, max, .. } => Some(exact_or_max(width, min + delta, max + delta)),
            Fact::Mem { region, min_offset, max_offset } => {
                if width == 64 {
                    mem_moved(region, min_offset, max_offset, delta as int, delta as int)
                } else {
                    None
                }
            },
        }
    }
}

pub open spec fn scale_spec(a: Fact, width: u16, factor: u32) -> Option<Fact> {
    if width > 64 {
        None
    } else {
        match a {
            Fact::Range { min, max, .. } => Some(exact_or_max(width, min * factor, max * factor)),
            Fact::Mem { .. } => None,
        }
    }
}

pub open spec fn shl_spec(a: Fact, width: u16, amount: u64) -> Option<Fact> {
    if width > 64 {
        None
    } else {
        match a {
            Fact::Range { min, max, .. } => {
                if amount < 64 {
                    Some(exact_or_max(width, min * pow2(amount as nat), max * pow2(amount as nat)))
                } else {
                    Some(max_range_fact(width))
                }
            },
            Fact::Mem { .. } => None,
        }
    }
}

pub open spec fn uextend_spec(a: Fact, from_bits: u16, to_bits: u16) -> Option<Fact> {
    if from_bits > to_bits || to_bits > 64 {
        None
    } else {
        match a {
            Fact::Range { min, max, .. } => {
                if max <= max_value(from_bits) {
                    Some(Fact::Range { bit_width: to_bits, min, max })
                } else {
                    Some(Fact::Range { bit_width: to_bits, min: 0, max: max_value(from_bits) as u64 })
                }
            },
            Fact::Mem { .. } => None,
        }
    }
}

pub open spec fn sextend_spec(a: Fact, from_bits: u16, to_bits: u16) -> Option<Fact> {
    if from_bits == 0 || from_bits > to_bits || to_bits > 64 {
        None
    } else {
        match a {
            Fact::Range { min, max, .. } => {
                if max <= max_value((from_bits - 1) as u16) {
                    Some(Fact::Range { bit_width: to_bits, min, max })
                } else {
                    None
                }
            },
            Fact::Mem { .. } => None,
        }
    }
}

impl FactContext {
    /// The region that `Mem` facts numbered `region` point into.
    pub open spec fn region_spec(&self, region: u32) -> Option<MemoryRegion> {
        if region < self.regions@.len() {
            Some(self.regions@[region as int])
        } else {
            None
        }
    }

    /// The region of `addr` when `addr` proves that an access of `bytes`
    /// bytes at every offset it allows stays inside that region.
    pub open spec fn access_region_spec(&self, addr: Fact, bytes: nat) -> Option<MemoryRegion> {
        match addr {
            Fact::Mem { region, max_offset, .. } => match self.region_spec(region) {
                Some(r) if max_offset + bytes <= r.size => Some(r),
                _ => None,
            },
            Fact::Range { .. } => None,
        }
    }

    pub open spec fn load_spec(&self, addr: Fact, ty: Type) -> PccResult<Fact> {
        match self.access_region_spec(addr, type_bytes(ty)) {
            Some(r) => match r.element {
                Some(e) => Ok(e),
                None => Ok(max_range_fact((8 * type_bytes(ty)) as u16)),
            },
            None => Err(PccError::UnsupportedFact),
        }
    }

    pub open spec fn store_spec(&self, addr: Fact, ty: Type, stored: Option<Fact>) -> PccResult<()> {
        match self.access_region_spec(addr, type_bytes(ty)) {
            Some(r) => match (stored, r.element) {
                (Some(s), Some(e)) => if subsumes_spec(s, e) {
                    Ok(())
                } else {
                    Err(PccError::UnsupportedFact)
                },
                _ => Ok(()),
            },
            None => Err(PccError::UnsupportedFact),
        }
    }
}

/// The range `lo..=hi` at `width` bits when it fits, else the universal fact.
fn range_or_max(width: u16, lo: i128, hi: i128) -> (r: Fact)
    ensures
        r == exact_or_max(width, lo as int, hi as int),
{
    let m = max_value_for_width(width);
    if 0 <= lo && lo <= m as i128 && 0 <= hi && hi <= m as i128 {
        Fact::Range { bit_width: width, min: lo as u64, max: hi as u64 }
    } else {
        Fact::max_range_for_width(width)
    }
}

fn mem_moved_by(region: u32, min_offset: u64, max_offset: u64, lo: i128, hi: i128) -> (r: Option<Fact>)
    requires
        -0x1_0000_0000_0000_0000 <= lo <= 0x1_0000_0000_0000_0000,
        -0x1_0000_0000_0000_0000 <= hi <= 0x1_0000_0000_0000_0000,
    ensures
        r == mem_moved(region, min_offset, max_offset, lo as int, hi as int),
{
    let a = min_offset as i128 + lo;
    let b = max_offset as i128 + hi;
    if 0 <= a && a <= u64::MAX as i128 && 0 <= b && b <= u64::MAX as i128 {
        Some(Fact::Mem { region, min_offset: a as u64, max_offset: b as u64 })
    } else {
        None
    }
}

impl FactContext {
    pub fn new(regions: Vec<MemoryRegion>) -> (r: FactContext)
        ensures
            r.regions@ == regions@,
    {
        FactContext { regions }
    }

    /// Whether `candidate` is at least as strong a guarantee as `declared`.
    pub fn subsumes(&self, candidate: &Fact, declared: &Fact) -> (r: bool)
        ensures
            r == subsumes_spec(*candidate, *declared),
    {
        match (candidate, declared) {
            (_, Fact::Mem { .. }) => true,
            (
                Fact::Range { bit_width: w1, min: min1, max: max1 },
                Fact::Range { bit_width: w2, min: min2, max: max2 },
            ) => *w1 <= *w2 && *min2 <= *min1 && *max1 <= *max2,
            _ => false,
        }
    }

    /// Subsumption against an optional declared fact; none is no obligation.
    pub fn subsumes_fact_optionals(&self, derived: &Fact, declared: Option<&Fact>) -> (r: bool)
        ensures
            r == subsumes_optionals_spec(
                *derived,
                match declared {
                    Some(d) => Some(*d),
                    None => None,
                },
            ),
    {
        match declared {
            Some(d) => self.subsumes(derived, d),
            None => true,
        }
    }

    /// The fact of `a + b` computed in `width` bits.
    pub fn add(&self, a: &Fact, b: &Fact, width: u16) -> (r: Option<Fact>)
        ensures
            r == add_spec(*a, *b, width),
    {
        if width > 64 {
            return None;
        }
        match (a, b) {
            (Fact::Range { min: min1, max: max1, .. }, Fact::Range { min: min2, max: max2, .. }) => {
                Some(range_or_max(width, *min1 as i128 + *min2 as i128, *max1 as i128 + *max2 as i128))
            },
            (Fact::Mem { region, min_offset, max_offset }, Fact::Range { min, max, .. }) => {
                if width == 64 {
                    mem_moved_by(*region, *min_offset, *max_offset, *min as i128, *max as i128)
                } else {
                    None
                }
            },
            (Fact::Range { min, max, .. }, Fact::Mem { region, min_offset, max_offset }) => {
                if width == 64 {
                    mem_moved_by(*region, *min_offset, *max_offset, *min as i128, *max as i128)
                } else {
                    None
                }
            },
            _ => None,
        }
    }

    /// The fact of `a + delta` computed in `width` bits.
    pub fn offset(&self, a: &Fact, width: u16, delta: i64) -> (r: Option<Fact>)
        ensures
            r == offset_spec(*a, width, delta),
    {
        if width > 64 {
            return None;
        }
        match a {
            Fact::Range { min, max, .. } => Some(
                range_or_max(width, *min as i128 + delta as i128, *max as i128 + delta as i128),
            ),
            Fact::Mem { region, min_offset, max_offset } => {
                if width == 64 {
                    mem_moved_by(*region, *min_offset, *max_offset, delta as i128, delta as i128)
                } else {
                    None
                }
            },
        }
    }

    /// The fact of `a * factor` computed in `width` bits.
    pub fn scale(&self, a: &Fact, width: u16, factor: u32) -> (r: Option<Fact>)
        ensures
            r == scale_spec(*a, width, factor),
    {
        if width > 64 {
            return None;
        }
        match a {
            Fact::Range { min, max, .. } => {
                proof {
                    assert(0 <= *min as int * factor as int <= u64::MAX as int * u32::MAX as int)
                        by (nonlinear_arith);
                    assert(0 <= *max as int * factor as int <= u64::MAX as int * u32::MAX as int)
                        by (nonlinear_arith);
                }
                Some(range_or_max(width, *min as i128 * factor as i128, *max as i128 * factor as i128))
            },
            Fact::Mem { .. } => None,
        }
    }

    /// The fact of `a << amount` computed in `width` bits.
    pub fn shl(&self, a: &Fact, width: u16, amount: u64) -> (r: Option<Fact>)
        ensures
            r == shl_spec(*a, width, amount),
    {
        if width > 64 {
            return None;
        }
        match a {
            Fact::Range { min, max, .. } => {
                if amount < 64 {
                    proof {
                        lemma2_to64();
                        lemma2_to64_rest();
                        lemma_pow2_pos(amount as nat);
                        vstd::arithmetic::power2::lemma_pow2_strictly_increases(amount as nat, 64);
                        if amount < 63 {
                            vstd::arithmetic::power2::lemma_pow2_strictly_increases(amount as nat, 63);
                        }
                        vstd::bits::lemma_u64_shl_is_mul(1, amount);
                    }
                    let p: u64 = 1u64 << amount;
                    proof {
                        assert(p <= 0x8000_0000_0000_0000);
                        assert(0 <= *min as int * p as int <= u64::MAX as int * 0x8000_0000_0000_0000)
                            by (nonlinear_arith)
                            requires
                                p <= 0x8000_0000_0000_0000,
                        ;
                        assert(0 <= *max as int * p as int <= u64::MAX as int * 0x8000_0000_0000_0000)
                            by (nonlinear_arith)
                            requires
                                p <= 0x8000_0000_0000_0000,
                        ;
                    }
                    Some(range_or_max(width, (*min as u128 * p as u128) as i128, (*max as u128 * p as u128) as i128))
                } else {
                    Some(Fact::max_range_for_width(width))
                }
            },
            Fact::Mem { .. } => None,
        }
    }

    /// The fact of `a` zero-extended from `from_bits` to `to_bits`.
    pub fn uextend(&self, a: &Fact, from_bits: u16, to_bits: u16) -> (r: Option<Fact>)
        ensures
            r == uextend_spec(*a, from_bits, to_bits),
    {
        if from_bits > to_bits || to_bits > 64 {
            return None;
        }
        match a {
            Fact::Range { min, max, .. } => {
                let m = max_value_for_width(from_bits);
                if *max <= m {
                    Some(Fact::Range { bit_width: to_bits, min: *min, max: *max })
                } else {
                    Some(Fact::Range { bit_width: to_bits, min: 0, max: m })
                }
            },
            Fact::Mem { .. } => None,
        }
    }

    /// The fact of `a` sign-extended from `from_bits` to `to_bits`.
    pub fn sextend(&self, a: &Fact, from_bits: u16, to_bits: u16) -> (r: Option<Fact>)
        ensures
            r == sextend_spec(*a, from_bits, to_bits),
    {
        if from_bits == 0 || from_bits > to_bits || to_bits > 64 {
            return None;
        }
        match a {
            Fact::Range { min, max, .. } => {
                if *max <= max_value_for_width(from_bits - 1) {
                    Some(Fact::Range { bit_width: to_bits, min: *min, max: *max })
                } else {
                    None
                }
            },
            Fact::Mem { .. } => None,
        }
    }

    fn access_region(&self, addr: &Fact, bytes: u32) -> (r: Option<MemoryRegion>)
        ensures
            r == self.access_region_spec(*addr, bytes as nat),
    {
        match addr {
            Fact::Mem { region, max_offset, .. } => {
                if (*region as usize) < self.regions.len() {
                    let r = self.regions[*region as usize];
                    if (*max_offset as u128) + (bytes as u128) <= r.size as u128 {
                        Some(r)
                    } else {
                        None
                    }
                } else {
                    None
                }
            },
            Fact::Range { .. } => None,
        }
    }

    /// The fact of a value of type `ty` loaded through `addr`; fails when
    /// `addr` does not prove the access in bounds.
    pub fn load(&self, addr: &Fact, ty: Type) -> (r: PccResult<Fact>)
        ensures
            r == self.load_spec(*addr, ty),
    {
        match self.access_region(addr, ty.bytes()) {
            Some(r) => match r.element {
                Some(e) => Ok(e),
                None => Ok(Fact::max_range_for_width(ty.bits())),
            },
            None => Err(PccError::UnsupportedFact),
        }
    }

    /// Checks a store of a value of type `ty` through `addr`: in bounds, and
    /// the stored value's fact, when given, meets the region's element fact.
    pub fn store(&self, addr: &Fact, ty: Type, stored: Option<&Fact>) -> (r: PccResult<()>)
        ensures
            r == self.store_spec(
                *addr,
                ty,
                match stored {
                    Some(s) => Some(*s),
                    None => None,
                },
            ),
    {
        match self.access_region(addr, ty.bytes()) {
            Some(r) => match (stored, r.element) {
                (Some(s), Some(e)) => if self.subsumes(s, &e) {
                    Ok(())
                } else {
                    Err(PccError::UnsupportedFact)
                },
                _ => Ok(()),
            },
            None => Err(PccError::UnsupportedFact),
        }
    }
}

} // verus!
