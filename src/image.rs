use vstd::prelude::*;
use crate::access::{Access, lemma_or_monoid, lemma_or_meets_mask};
use crate::layout::Layout;
use crate::usage::Usage;

verus! {

/// Image access flag: storage writes by shaders.
pub const SHADER_WRITE: u32 = 0x40;

/// Image access flag: writes to a color attachment.
pub const COLOR_ATTACHMENT_WRITE: u32 = 0x100;

/// Image access flag: writes to a depth/stencil attachment.
pub const DEPTH_STENCIL_ATTACHMENT_WRITE: u32 = 0x400;

/// Image access flag: destination of a transfer.
pub const TRANSFER_WRITE: u32 = 0x1000;

/// Image access flag: writes by the host.
pub const HOST_WRITE: u32 = 0x4000;

/// Image access flag: any memory write.
pub const MEMORY_WRITE: u32 = 0x10000;

/// The image access flags that write.
pub const WRITE_MASK: u32 = SHADER_WRITE | COLOR_ATTACHMENT_WRITE | DEPTH_STENCIL_ATTACHMENT_WRITE
    | TRANSFER_WRITE | HOST_WRITE | MEMORY_WRITE;

/// How one use touches an image, one bit per access flag.
#[derive(Clone, Copy, Debug, PartialEq, Eq, PartialOrd, Ord, Hash, Structural)]
pub struct ImageAccess {
    pub bits: u32,
}

impl ImageAccess {
    pub fn from_bits(bits: u32) -> (r: Self)
        ensures
            r.bits == bits,
    {
        ImageAccess { bits }
    }
}

impl Access for ImageAccess {
    open spec fn spec_none() -> Self {
        ImageAccess { bits: 0 }
    }

    open spec fn spec_union(self, rhs: Self) -> Self {
        ImageAccess { bits: self.bits | rhs.bits }
    }

    open spec fn spec_is_write(self) -> bool {
        self.bits & WRITE_MASK != 0
    }

    fn none() -> (r: Self) {
        ImageAccess { bits: 0 }
    }

    fn union(self, rhs: Self) -> (r: Self) {
        ImageAccess { bits: self.bits | rhs.bits }
    }

    fn is_write(&self) -> (r: bool) {
        self.bits & WRITE_MASK != 0
    }

    proof fn lemma_union_monoid(a: Self, b: Self, c: Self) {
        lemma_or_monoid(a.bits, b.bits, c.bits);
    }

    proof fn lemma_write_dominance(a: Self, b: Self) {
        lemma_or_meets_mask(a.bits, b.bits, WRITE_MASK);
    }

    proof fn lemma_none_reads() {
        lemma_or_meets_mask(0, 0, WRITE_MASK);
    }
}

/// The ways an image may be used over its lifetime, one bit per usage flag.
#[derive(Clone, Copy, Debug, PartialEq, Eq, PartialOrd, Ord, Hash, Structural)]
pub struct ImageUsage {
    pub bits: u32,
}

impl ImageUsage {
    pub fn from_bits(bits: u32) -> (r: Self)
        ensures
            r.bits == bits,
    {
        ImageUsage { bits }
    }
}

impl Usage for ImageUsage {
    open spec fn spec_none() -> Self {
        ImageUsage { bits: 0 }
    }

    open spec fn spec_union(self, rhs: Self) -> Self {
        ImageUsage { bits: self.bits | rhs.bits }
    }

    fn none() -> (r: Self) {
        ImageUsage { bits: 0 }
    }

    fn union(self, rhs: Self) -> (r: Self) {
        ImageUsage { bits: self.bits | rhs.bits }
    }

    proof fn lemma_union_monoid(a: Self, b: Self, c: Self) {
        lemma_or_monoid(a.bits, b.bits, c.bits);
    }
}

/// The layout an image presents to the device.
#[derive(Clone, Copy, Debug, PartialEq, Eq, Hash, Structural)]
pub enum ImageLayout {
    /// General purpose, no restrictions on usage.
    General,
    /// Only a color attachment of a framebuffer.
    ColorAttachmentOptimal,
    /// Only a depth/stencil attachment of a framebuffer.
    DepthStencilAttachmentOptimal,
    /// A depth/stencil attachment or a read-only depth/stencil image in a shader.
    DepthStencilReadOnlyOptimal,
    /// Only a read-only image in a shader.
    ShaderReadOnlyOptimal,
    /// Only the source of a transfer.
    TransferSrcOptimal,
    /// Only the destination of a transfer.
    TransferDstOptimal,
    /// No layout: the contents need not be kept, and any layout may follow.
    Undefined,
    /// Like `Undefined`, but the contents are kept.
    Preinitialized,
    /// The layout in which an image is presented to the display.
    Present,
}

impl Layout for ImageLayout {
    /// Equal layouts merge into themselves, `Undefined` gives way to the
    /// other operand, and any other pair needs a transition.
    open spec fn spec_merge(self, rhs: Self) -> Option<Self> {
        if self == rhs {
            Some(self)
        } else if self is Undefined {
            Some(rhs)
        } else if rhs is Undefined {
            Some(self)
        } else {
            None
        }
    }

    fn merge(self, rhs: Self) -> (r: Option<Self>) {
        if self == rhs {
            Some(self)
        } else if matches!(self, ImageLayout::Undefined) {
            Some(rhs)
        } else if matches!(rhs, ImageLayout::Undefined) {
            Some(self)
        } else {
            None
        }
    }

    proof fn lemma_merge_commutative(a: Self, b: Self) {
    }

    proof fn lemma_merge_associative(a: Self, b: Self, c: Self) {
    }

    proof fn lemma_merge_idempotent(a: Self) {
    }
}

/// `Undefined` is the identity of image layout merging.
pub proof fn lemma_undefined_is_identity(l: ImageLayout)
    ensures
        ImageLayout::Undefined.spec_merge(l) == Some(l),
        l.spec_merge(ImageLayout::Undefined) == Some(l),
{
}

/// The part of an image that one use touches: aspects, mip levels and
/// array layers. A count of `None` reaches to the last level or layer.
#[derive(Clone, Debug, PartialEq, Eq, Hash)]
pub struct SubresourceRange {
    /// Color, depth and stencil aspects, one bit each.
    pub aspects: u8,
    pub level_start: u8,
    pub level_count: Option<u8>,
    pub layer_start: u16,
    pub layer_count: Option<u16>,
}

} // verus!
