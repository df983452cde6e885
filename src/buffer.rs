use vstd::prelude::*;
use crate::access::{Access, lemma_or_monoid, lemma_or_meets_mask};
use crate::layout::Layout;
use crate::usage::Usage;

verus! {

/// Buffer access flag: storage writes by shaders.
pub const SHADER_WRITE: u32 = 0x40;

/// Buffer access flag: destination of a transfer.
pub const TRANSFER_WRITE: u32 = 0x1000;

/// Buffer access flag: writes by the host.
pub const HOST_WRITE: u32 = 0x4000;

/// Buffer access flag: any memory write.
pub const MEMORY_WRITE: u32 = 0x10000;

/// The buffer access flags that write.
pub const WRITE_MASK: u32 = SHADER_WRITE | TRANSFER_WRITE | HOST_WRITE | MEMORY_WRITE;

/// How one use touches a buffer, one bit per access flag.
#[derive(Clone, Copy, Debug, PartialEq, Eq, PartialOrd, Ord, Hash, Structural)]
pub struct BufferAccess {
    pub bits: u32,
}

impl BufferAccess {
    pub fn from_bits(bits: u32) -> (r: Self)
        ensures
            r.bits == bits,
    {
        BufferAccess { bits }
    }
}

impl Access for BufferAccess {
    open spec fn spec_none() -> Self {
        BufferAccess { bits: 0 }
    }

    open spec fn spec_union(self, rhs: Self) -> Self {
        BufferAccess { bits: self.bits | rhs.bits }
    }

    open spec fn spec_is_write(self) -> bool {
        self.bits & WRITE_MASK != 0
    }

    fn none() -> (r: Self) {
        BufferAccess { bits: 0 }
    }

    fn union(self, rhs: Self) -> (r: Self) {
        BufferAccess { bits: self.bits | rhs.bits }
    }

    fn is_write(&self) -> (r: bool) {
        self.bits & WRITE_MASK != 0
    }

    proof fn lemma_union_monoid(a: Self, b: Self, c: Self) {
        lemma_or_monoid(a.bits, b.bits, c.bits);
    }

    proof fn lemma_write_dominance(a: Self, b: Self) {
        lemma_or_meets_mask(a.bits, b.bits, WRITE_MASK);
    }

    proof fn lemma_none_reads() {
        lemma_or_meets_mask(0, 0, WRITE_MASK);
    }
}

/// The ways a buffer may be used over its lifetime, one bit per usage flag.
#[derive(Clone, Copy, Debug, PartialEq, Eq, PartialOrd, Ord, Hash, Structural)]
pub struct BufferUsage {
    pub bits: u32,
}

impl BufferUsage {
    pub fn from_bits(bits: u32) -> (r: Self)
        ensures
            r.bits == bits,
    {
        BufferUsage { bits }
    }
}

impl Usage for BufferUsage {
    open spec fn spec_none() -> Self {
        BufferUsage { bits: 0 }
    }

    open spec fn spec_union(self, rhs: Self) -> Self {
        BufferUsage { bits: self.bits | rhs.bits }
    }

    fn none() -> (r: Self) {
        BufferUsage { bits: 0 }
    }

    fn union(self, rhs: Self) -> (r: Self) {
        BufferUsage { bits: self.bits | rhs.bits }
    }

    proof fn lemma_union_monoid(a: Self, b: Self, c: Self) {
        lemma_or_monoid(a.bits, b.bits, c.bits);
    }
}

/// The layout of a buffer. Buffers have a single layout, so any two merge;
/// the type lets buffers and images share one interface.
#[derive(Clone, Copy, Debug, PartialEq, Eq, PartialOrd, Ord, Hash, Structural)]
pub struct BufferLayout;

impl Layout for BufferLayout {
    open spec fn spec_merge(self, rhs: Self) -> Option<Self> {
        Some(BufferLayout)
    }

    fn merge(self, rhs: Self) -> (r: Option<Self>) {
        Some(BufferLayout)
    }

    proof fn lemma_merge_commutative(a: Self, b: Self) {
    }

    proof fn lemma_merge_associative(a: Self, b: Self, c: Self) {
    }

    proof fn lemma_merge_idempotent(a: Self) {
    }
}

/// Any two buffer layouts merge.
pub proof fn lemma_buffer_layouts_merge(a: BufferLayout, b: BufferLayout)
    ensures
        a.spec_merge(b) == Some(BufferLayout),
{
}

} // verus!
