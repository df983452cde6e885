use vstd::prelude::*;

verus! {

/// How a single use touches a resource: a set of read and write flags.
///
/// `union` is commutative, associative and idempotent with `none` as its
/// neutral element, and a union writes exactly when one of its operands does.
pub trait Access: Copy + Eq + Ord + core::hash::Hash + core::fmt::Debug + Sized {
    spec fn spec_none() -> Self;

    spec fn spec_union(self, rhs: Self) -> Self;

    spec fn spec_is_write(self) -> bool;

    /// The access that touches nothing.
    fn none() -> (r: Self)
        ensures
            r == Self::spec_none(),
    ;

    /// The access made of the flags of both operands.
    fn union(self, rhs: Self) -> (r: Self)
        ensures
            r == self.spec_union(rhs),
    ;

    /// Whether any write flag is set.
    fn is_write(&self) -> (r: bool)
        ensures
            r == self.spec_is_write(),
    ;

    /// Union is a commutative idempotent monoid with `none` as identity.
    proof fn lemma_union_monoid(a: Self, b: Self, c: Self)
        ensures
            a.spec_union(b) == b.spec_union(a),
            a.spec_union(b).spec_union(c) == a.spec_union(b.spec_union(c)),
            a.spec_union(a) == a,
            a.spec_union(Self::spec_none()) == a,
    ;

    /// A union writes exactly when one of its operands writes.
    proof fn lemma_write_dominance(a: Self, b: Self)
        ensures
            a.spec_union(b).spec_is_write() == (a.spec_is_write() || b.spec_is_write()),
    ;

    /// The empty access does not write.
    proof fn lemma_none_reads()
        ensures
            !Self::spec_none().spec_is_write(),
    ;
}

/// Bitwise or is a commutative idempotent monoid on `u32` with zero as identity.
pub proof fn lemma_or_monoid(a: u32, b: u32, c: u32)
    ensures
        a | b == b | a,
        (a | b) | c == a | (b | c),
        a | a == a,
        a | 0 == a,
{
    assert(a | b == b | a) by (bit_vector);
    assert((a | b) | c == a | (b | c)) by (bit_vector);
    assert(a | a == a) by (bit_vector);
    assert(a | 0 == a) by (bit_vector);
}

/// A union of two flag sets meets a mask exactly when one of them does.
pub proof fn lemma_or_meets_mask(a: u32, b: u32, m: u32)
    ensures
        ((a | b) & m != 0) == ((a & m != 0) || (b & m != 0)),
        0u32 & m == 0,
{
    assert(((a | b) & m != 0) == ((a & m != 0) || (b & m != 0))) by (bit_vector);
    assert(0u32 & m == 0) by (bit_vector);
}

} // verus!
