use vstd::prelude::*;

verus! {

/// All the ways a resource may be used over its lifetime: a flag set that
/// only grows, by union.
pub trait Usage: Copy + Eq + core::fmt::Debug + Sized {
    spec fn spec_none() -> Self;

    spec fn spec_union(self, rhs: Self) -> Self;

    /// The usage that allows nothing.
    fn none() -> (r: Self)
        ensures
            r == Self::spec_none(),
    ;

    /// The usage made of the flags of both operands.
    fn union(self, rhs: Self) -> (r: Self)
        ensures
            r == self.spec_union(rhs),
    ;

    /// Union is a commutative idempotent monoid with `none` as identity.
    proof fn lemma_union_monoid(a: Self, b: Self, c: Self)
        ensures
            a.spec_union(b) == b.spec_union(a),
            a.spec_union(b).spec_union(c) == a.spec_union(b.spec_union(c)),
            a.spec_union(a) == a,
            a.spec_union(Self::spec_none()) == a,
    ;
}

} // verus!
