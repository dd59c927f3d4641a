//! The function reference as the C interface lays it out.
use vstd::prelude::*;

verus! {

/// A function reference: the store it belongs to and its index there. The
/// all-zero value stands for the null reference.
#[allow(non_camel_case_types)]
#[derive(Clone, Copy, Debug, PartialEq, Eq, Structural)]
pub struct wasmtime_func_t {
    pub store_id: u64,
    pub index: usize,
}

impl wasmtime_func_t {
    /// The null function reference.
    pub fn null() -> (r: Self)
        ensures
            r.store_id == 0 && r.index == 0,
    {
        wasmtime_func_t { store_id: 0, index: 0 }
    }

    /// Whether this is the null function reference.
    pub fn is_null(&self) -> (r: bool)
        ensures
            r == (self.store_id == 0 && self.index == 0),
    {
        self.store_id == 0 && self.index == 0
    }
}

} // verus!
