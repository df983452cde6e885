use vstd::prelude::*;

verus! {

/// Set of pipeline stages that observe an access, one bit per stage.
#[derive(Clone, Copy, Debug, PartialEq, Eq, PartialOrd, Ord, Hash, Structural)]
pub struct PipelineStage {
    pub bits: u32,
}

impl PipelineStage {
    pub open spec fn spec_union(self, rhs: Self) -> Self {
        PipelineStage { bits: self.bits | rhs.bits }
    }

    /// The empty stage set.
    pub fn empty() -> (r: Self)
        ensures
            r.bits == 0,
    {
        PipelineStage { bits: 0 }
    }

    pub fn from_bits(bits: u32) -> (r: Self)
        ensures
            r.bits == bits,
    {
        PipelineStage { bits }
    }

    /// Stages observed by either operand.
    pub fn union(self, rhs: Self) -> (r: Self)
        ensures
            r == self.spec_union(rhs),
    {
        PipelineStage { bits: self.bits | rhs.bits }
    }

    /// Stage union is commutative, associative and idempotent, with the
    /// empty set as its neutral element.
    pub proof fn lemma_union_monoid(a: Self, b: Self, c: Self)
        ensures
            a.spec_union(b) == b.spec_union(a),
            a.spec_union(b).spec_union(c) == a.spec_union(b.spec_union(c)),
            a.spec_union(a) == a,
            a.spec_union(PipelineStage { bits: 0 }) == a,
    {
        crate::access::lemma_or_monoid(a.bits, b.bits, c.bits);
    }
}

} // verus!
