use vstd::prelude::*;

verus! {

/// The value types that a memory access or a virtual register can have.
#[derive(Clone, Copy, Debug, PartialEq, Eq, Structural)]
pub enum Type {
    I8,
    I16,
    I32,
    I64,
    I128,
    F32,
    F64,
    I8X16,
}

/// Size in bytes of a value of type `ty`.
pub open spec fn type_bytes(ty: Type) -> nat {
    match ty {
        Type::I8 => 1,
        Type::I16 => 2,
        Type::I32 | Type::F32 => 4,
        Type::I64 | Type::F64 => 8,
        Type::I128 | Type::I8X16 => 16,
    }
}

/// Whether `ty` is one of the integer types that fit a 64-bit register.
pub open spec fn is_scalar_int(ty: Type) -> bool {
    match ty {
        Type::I8 | Type::I16 | Type::I32 | Type::I64 => true,
        _ => false,
    }
}

impl Type {
    pub fn bytes(&self) -> (r: u32)
        ensures
            r == type_bytes(*self),
    {
        match self {
            Type::I8 => 1,
            Type::I16 => 2,
            Type::I32 | Type::F32 => 4,
            Type::I64 | Type::F64 => 8,
            Type::I128 | Type::I8X16 => 16,
        }
    }

    pub fn bits(&self) -> (r: u16)
        ensures
            r == 8 * type_bytes(*self),
    {
        (self.bytes() * 8) as u16
    }
}

} // verus!
