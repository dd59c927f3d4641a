use vstd::prelude::*;
use crate::types::Type;
use crate::fact::Fact;
use crate::inst::{Inst, Reg};

verus! {

/// A function's lowered instructions with its per-register fact store.
///
/// `facts[r]` is the fact of virtual register `r`, if any, and
/// `vreg_types[r]` its type; `fact_required[i]` says whether the register
/// that instruction `i` defines must carry a fact.
pub struct VCode {
    pub insts: Vec<Inst>,
    pub vreg_types: Vec<Type>,
    pub facts: Vec<Option<Fact>>,
    pub fact_required: Vec<bool>,
}

/// The mathematical view of a [`VCode`].
pub struct VCodeView {
    pub insts: Seq<Inst>,
    pub vreg_types: Seq<Type>,
    pub facts: Seq<Option<Fact>>,
    pub fact_required: Seq<bool>,
}

impl VCodeView {
    /// The fact of register `r`; none for a register out of range.
    pub open spec fn fact_of(self, r: Reg) -> Option<Fact> {
        if r < self.facts.len() {
            self.facts[r as int]
        } else {
            None
        }
    }

    pub open spec fn type_of(self, r: Reg) -> Option<Type> {
        if r < self.vreg_types.len() {
            Some(self.vreg_types[r as int])
        } else {
            None
        }
    }

    pub open spec fn requires_fact(self, i: usize) -> bool {
        i < self.fact_required.len() && self.fact_required[i as int]
    }

    /// The fact store after giving register `r` the fact `f`.
    pub open spec fn facts_with(self, r: Reg, f: Fact) -> Seq<Option<Fact>> {
        if r < self.facts.len() {
            self.facts.update(r as int, Some(f))
        } else {
            self.facts
        }
    }
}

impl View for VCode {
    type V = VCodeView;

    open spec fn view(&self) -> VCodeView {
        VCodeView {
            insts: self.insts@,
            vreg_types: self.vreg_types@,
            facts: self.facts@,
            fact_required: self.fact_required@,
        }
    }
}

impl VCode {
    pub fn vreg_fact(&self, r: Reg) -> (res: Option<&Fact>)
        ensures
            match res {
                Some(f) => self@.fact_of(r) == Some(*f),
                None => self@.fact_of(r) is None,
            },
    {
        if r < self.facts.len() {
            match &self.facts[r] {
                Some(f) => Some(f),
                None => None,
            }
        } else {
            None
        }
    }

    pub fn vreg_type(&self, r: Reg) -> (res: Option<Type>)
        ensures
            res == self@.type_of(r),
    {
        if r < self.vreg_types.len() {
            Some(self.vreg_types[r])
        } else {
            None
        }
    }

    /// Whether the register defined by instruction `i` must carry a fact.
    pub fn inst_defines_facts(&self, i: usize) -> (res: bool)
        ensures
            res == self@.requires_fact(i),
    {
        i < self.fact_required.len() && self.fact_required[i]
    }

    /// Gives register `r` the fact `f`.
    pub fn set_vreg_fact(&mut self, r: Reg, f: Fact)
        ensures
            final(self).facts@ == old(self)@.facts_with(r, f),
            final(self).insts@ == old(self).insts@,
            final(self).vreg_types@ == old(self).vreg_types@,
            final(self).fact_required@ == old(self).fact_required@,
    {
        if r < self.facts.len() {
            self.facts.set(r, Some(f));
        }
    }
}

} // verus!
