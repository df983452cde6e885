use vstd::prelude::*;

verus! {

/// The layout a resource presents to the device.
///
/// `merge` is partial: it gives the one layout under which both uses can
/// proceed, or `None` when a transition is needed between them. It is
/// commutative, and associative wherever the merges involved are defined.
pub trait Layout: Copy + Eq + core::fmt::Debug + Sized {
    spec fn spec_merge(self, rhs: Self) -> Option<Self>;

    /// The common layout of both operands, if there is one.
    fn merge(self, rhs: Self) -> (r: Option<Self>)
        ensures
            r == self.spec_merge(rhs),
    ;

    /// Merging is commutative: defined for both orders or neither, and
    /// equal where defined.
    proof fn lemma_merge_commutative(a: Self, b: Self)
        ensures
            a.spec_merge(b) == b.spec_merge(a),
    ;

    /// Where all pairwise merges are defined, three layouts merge, and the
    /// order of merging does not matter.
    proof fn lemma_merge_associative(a: Self, b: Self, c: Self)
        requires
            a.spec_merge(b) is Some,
            b.spec_merge(c) is Some,
            a.spec_merge(c) is Some,
        ensures
            a.spec_merge(b).unwrap().spec_merge(c) is Some,
            a.spec_merge(b).unwrap().spec_merge(c) == a.spec_merge(b.spec_merge(c).unwrap()),
    ;

    /// A layout merges with itself into itself.
    proof fn lemma_merge_idempotent(a: Self)
        ensures
            a.spec_merge(a) == Some(a),
    ;
}

} // verus!
