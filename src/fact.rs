use vstd::prelude::*;
use vstd::arithmetic::power2::{pow2, lemma2_to64, lemma2_to64_rest, lemma_pow2_pos};
use vstd::bits::lemma_u64_shl_is_mul;
use crate::types::{Type, type_bytes, is_scalar_int};

verus! {

/// Why a fact could not be checked or derived.
#[derive(Clone, Copy, Debug, PartialEq, Eq, Structural)]
pub enum PccError {
    /// An operand has no fact, and none can be inferred from its type.
    MissingFact,
    /// A rule does not apply to the facts at hand, or a derived fact does
    /// not imply the fact stated for a register.
    UnsupportedFact,
    /// The instruction is recognized but not modelled yet.
    UnimplementedInst,
}

pub type PccResult<T> = Result<T, PccError>;

/// An abstract description of the values that a register may hold.
#[derive(Clone, Copy, Debug, PartialEq, Eq, Structural)]
pub enum Fact {
    /// The value, read as an unsigned `bit_width`-bit integer, lies in
    /// `min..=max`. A constant has `min == max`; the universal fact of a
    /// width has `min == 0` and `max` the largest value of that width.
    Range { bit_width: u16, min: u64, max: u64 },
    /// The value is a pointer into memory region `region`, at an offset
    /// from the region's start in `min_offset..=max_offset`.
    Mem { region: u32, min_offset: u64, max_offset: u64 },
}

/// The largest unsigned value of `width` bits (widths above 64 saturate).
pub open spec fn max_value(width: u16) -> int {
    if width >= 64 {
        u64::MAX as int
    } else {
        pow2(width as nat) - 1
    }
}

pub open spec fn constant_fact(width: u16, value: u64) -> Fact {
    Fact::Range { bit_width: width, min: value, max: value }
}

pub open spec fn max_range_fact(width: u16) -> Fact {
    Fact::Range { bit_width: width, min: 0, max: max_value(width) as u64 }
}

/// A fact that tells more than "some value of this width".
pub open spec fn fact_propagates(f: Fact) -> bool {
    match f {
        Fact::Range { bit_width, min, max } => !(min == 0 && max == max_value(bit_width)),
        Fact::Mem { .. } => true,
    }
}

pub open spec fn fact_as_const(f: Fact, width: u16) -> Option<u64> {
    match f {
        Fact::Range { bit_width, min, max } if bit_width == width && min == max => Some(min),
        _ => None,
    }
}

pub open spec fn fact_from_type(ty: Type) -> Option<Fact> {
    if is_scalar_int(ty) {
        Some(max_range_fact((8 * type_bytes(ty)) as u16))
    } else {
        None
    }
}

pub proof fn lemma_max_value_fits(width: u16)
    ensures
        0 <= max_value(width) <= u64::MAX,
{
    if width < 64 {
        lemma2_to64();
        lemma2_to64_rest();
        lemma_pow2_pos(width as nat);
        vstd::arithmetic::power2::lemma_pow2_strictly_increases(width as nat, 64);
    }
}

/// The largest unsigned value of `width` bits.
pub fn max_value_for_width(width: u16) -> (r: u64)
    ensures
        r == max_value(width),
{
    if width >= 64 {
        u64::MAX
    } else {
        proof {
            lemma_max_value_fits(width);
            vstd::bits::lemma_u64_pow2_no_overflow(width as nat);
            lemma_u64_shl_is_mul(1, width as u64);
        }
        (1u64 << (width as u64)) - 1
    }
}

impl Fact {
    /// The fact that the value is exactly `value`, as a `width`-bit integer.
    pub fn constant(width: u16, value: u64) -> (r: Fact)
        ensures
            r == constant_fact(width, value),
    {
        Fact::Range { bit_width: width, min: value, max: value }
    }

    /// The universal fact of a width: any value that `width` bits can hold.
    pub fn max_range_for_width(width: u16) -> (r: Fact)
        ensures
            r == max_range_fact(width),
    {
        Fact::Range { bit_width: width, min: 0, max: max_value_for_width(width) }
    }

    /// Whether a fact on an input is worth deriving onward to an output.
    pub fn propagates(&self) -> (r: bool)
        ensures
            r == fact_propagates(*self),
    {
        match self {
            Fact::Range { bit_width, min, max } => !(*min == 0 && *max == max_value_for_width(
                *bit_width,
            )),
            Fact::Mem { .. } => true,
        }
    }

    /// The value, when the fact pins one down at width `width`.
    pub fn as_const(&self, width: u16) -> (r: Option<u64>)
        ensures
            r == fact_as_const(*self, width),
    {
        match self {
            Fact::Range { bit_width, min, max } => {
                if *bit_width == width && *min == *max {
                    Some(*min)
                } else {
                    None
                }
            },
            Fact::Mem { .. } => None,
        }
    }

    /// The fact that every value of an integer type satisfies; none for
    /// floating-point and vector types.
    pub fn infer_from_type(ty: Type) -> (r: Option<Fact>)
        ensures
            r == fact_from_type(ty),
    {
        match ty {
            Type::I8 | Type::I16 | Type::I32 | Type::I64 => Some(
                Fact::max_range_for_width(ty.bits()),
            ),
            _ => None,
        }
    }
}

} // verus!
