use vstd::prelude::*;
use core::marker::PhantomData;
use crate::access::Access;
use crate::buffer::{BufferAccess, BufferLayout, BufferUsage};
use crate::image::{ImageAccess, ImageLayout, ImageUsage, SubresourceRange};
use crate::layout::Layout;
use crate::stage::PipelineStage;
use crate::usage::Usage;

verus! {

/// A kind of resource. Kinds are tags that are never instantiated: each
/// binds the access, layout, usage and range types of its resources.
pub trait Resource: Copy + core::fmt::Debug + Eq + Ord + core::hash::Hash {
    /// How one use touches a resource of this kind.
    type Access: Access;

    /// The layouts a resource of this kind can present.
    type Layout: Layout;

    /// The lifetime usage flags of a resource of this kind.
    type Usage: Usage;

    /// The part of a resource that one use touches.
    type Range: Clone;
}

/// The buffer kind. Its field is private: no value of it is ever made.
#[derive(Clone, Copy, Debug, PartialEq, Eq, PartialOrd, Ord, Hash)]
pub struct Buffer(());

impl Resource for Buffer {
    type Access = BufferAccess;
    type Layout = BufferLayout;
    type Usage = BufferUsage;
    type Range = core::ops::Range<u64>;
}

/// The image kind. Its field is private: no value of it is ever made.
#[derive(Clone, Copy, Debug, PartialEq, Eq, PartialOrd, Ord, Hash)]
pub struct Image(());

impl Resource for Image {
    type Access = ImageAccess;
    type Layout = ImageLayout;
    type Usage = ImageUsage;
    type Range = SubresourceRange;
}

/// Handle of a resource of kind `R`: a dense index, typed by kind so that
/// the handle of a buffer is never taken for that of an image.
#[derive(Copy, Debug, PartialEq, Eq, PartialOrd, Ord, Hash)]
pub struct Id<R>(usize, PhantomData<R>);

impl<R> Id<R> {
    /// The index that the handle stands for.
    pub closed spec fn spec_index(self) -> usize {
        self.0
    }

    /// The handle of the resource at `index`.
    pub fn new(index: usize) -> (r: Self)
        ensures
            r.spec_index() == index,
    {
        Id(index, PhantomData)
    }

    /// The index of the resource.
    pub fn index(&self) -> (r: usize)
        ensures
            r == self.spec_index(),
    {
        self.0
    }
}

impl<R> Clone for Id<R> {
    fn clone(&self) -> (r: Self)
        ensures
            r.spec_index() == self.spec_index(),
    {
        Id(self.0, PhantomData)
    }
}

/// One pending use of a resource of kind `R`: how it is touched, the layout
/// it needs, and the pipeline stages that observe it.
#[derive(Clone, Copy, Debug)]
pub struct State<R: Resource> {
    pub access: R::Access,
    pub layout: R::Layout,
    pub stages: PipelineStage,
}

impl<R: Resource> State<R> {
    /// Whether both uses can proceed under one layout.
    pub open spec fn layouts_merge(self, rhs: Self) -> bool {
        self.layout.spec_merge(rhs.layout) is Some
    }

    /// Both uses at once: the union of accesses and stages under the common
    /// layout.
    pub open spec fn spec_merge(self, rhs: Self) -> Self
        recommends
            self.layouts_merge(rhs),
    {
        State {
            access: self.access.spec_union(rhs.access),
            layout: self.layout.spec_merge(rhs.layout).unwrap(),
            stages: self.stages.spec_union(rhs.stages),
        }
    }

    pub open spec fn spec_exclusive(self) -> bool {
        self.access.spec_is_write()
    }

    pub open spec fn spec_compatible(self, rhs: Self) -> bool {
        &&& !self.spec_exclusive()
        &&& !rhs.spec_exclusive()
        &&& self.layouts_merge(rhs)
    }

    /// Merges two uses into one. The layouts must merge: merging uses that
    /// need a transition between them is a caller's error.
    pub fn merge(&self, rhs: Self) -> (r: Self)
        requires
            self.layouts_merge(rhs),
        ensures
            r.access == self.access.spec_union(rhs.access),
            r.layout == self.layout.spec_merge(rhs.layout).unwrap(),
            r.stages == self.stages.spec_union(rhs.stages),
            r == self.spec_merge(rhs),
    {
        State {
            access: self.access.union(rhs.access),
            layout: self.layout.merge(rhs.layout).unwrap(),
            stages: self.stages.union(rhs.stages),
        }
    }

    /// Whether the use writes, and so must be ordered against every other
    /// use of the same part of the resource.
    pub fn exclusive(&self) -> (r: bool)
        ensures
            r == self.access.spec_is_write(),
            r == self.spec_exclusive(),
    {
        self.access.is_write()
    }

    /// Whether the two uses may run side by side with no barrier or layout
    /// transition between them: neither writes and their layouts merge.
    pub fn compatible(&self, rhs: Self) -> (r: bool)
        ensures
            r == (!self.access.spec_is_write() && !rhs.access.spec_is_write()
                && self.layout.spec_merge(rhs.layout) is Some),
            r == self.spec_compatible(rhs),
    {
        !self.exclusive() && !rhs.exclusive() && self.layout.merge(rhs.layout).is_some()
    }
}

/// Compatible uses can always be merged: `merge` accepts them.
pub proof fn lemma_compatible_implies_mergeable<R: Resource>(s1: State<R>, s2: State<R>)
    requires
        s1.spec_compatible(s2),
    ensures
        s1.layouts_merge(s2),
{
}

/// Compatible uses are both non-exclusive: neither writes.
pub proof fn lemma_compatible_excludes_writers<R: Resource>(s1: State<R>, s2: State<R>)
    requires
        s1.spec_compatible(s2),
    ensures
        !s1.spec_exclusive(),
        !s2.spec_exclusive(),
{
}

/// Compatibility is symmetric.
pub proof fn lemma_compatible_symmetric<R: Resource>(s1: State<R>, s2: State<R>)
    ensures
        s1.spec_compatible(s2) == s2.spec_compatible(s1),
{
    R::Layout::lemma_merge_commutative(s1.layout, s2.layout);
}

/// Merging two uses does not depend on their order.
pub proof fn lemma_state_merge_commutative<R: Resource>(s1: State<R>, s2: State<R>)
    requires
        s1.layouts_merge(s2),
    ensures
        s2.layouts_merge(s1),
        s1.spec_merge(s2) == s2.spec_merge(s1),
{
    R::Access::lemma_union_monoid(s1.access, s2.access, s1.access);
    R::Layout::lemma_merge_commutative(s1.layout, s2.layout);
    PipelineStage::lemma_union_monoid(s1.stages, s2.stages, s1.stages);
}

/// Merging a use with itself gives it back.
pub proof fn lemma_state_merge_idempotent<R: Resource>(s: State<R>)
    ensures
        s.layouts_merge(s),
        s.spec_merge(s) == s,
{
    R::Access::lemma_union_monoid(s.access, s.access, s.access);
    R::Layout::lemma_merge_idempotent(s.layout);
    PipelineStage::lemma_union_monoid(s.stages, s.stages, s.stages);
}

/// Where the layouts of three uses merge pairwise, the order in which the
/// uses are merged does not matter.
pub proof fn lemma_state_merge_associative<R: Resource>(s1: State<R>, s2: State<R>, s3: State<R>)
    requires
        s1.layouts_merge(s2),
        s2.layouts_merge(s3),
        s1.layouts_merge(s3),
    ensures
        s1.spec_merge(s2).layouts_merge(s3),
        s1.layouts_merge(s2.spec_merge(s3)),
        s1.spec_merge(s2).spec_merge(s3) == s1.spec_merge(s2.spec_merge(s3)),
{
    R::Access::lemma_union_monoid(s1.access, s2.access, s3.access);
    R::Layout::lemma_merge_associative(s1.layout, s2.layout, s3.layout);
    PipelineStage::lemma_union_monoid(s1.stages, s2.stages, s3.stages);
}

} // verus!
