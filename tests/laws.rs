use gfx_chain::{
    buffer, image, Access, Buffer, BufferAccess, BufferLayout, BufferUsage, Id, Image,
    ImageAccess, ImageLayout, ImageUsage, Layout, PipelineStage, State, Usage,
};
use gfx_hal::buffer::Access as HalBufferAccess;
use gfx_hal::image::Access as HalImageAccess;
use gfx_hal::pso::PipelineStage as HalStage;
use std::any::TypeId;

const ALL_LAYOUTS: [ImageLayout; 10] = [
    ImageLayout::General,
    ImageLayout::ColorAttachmentOptimal,
    ImageLayout::DepthStencilAttachmentOptimal,
    ImageLayout::DepthStencilReadOnlyOptimal,
    ImageLayout::ShaderReadOnlyOptimal,
    ImageLayout::TransferSrcOptimal,
    ImageLayout::TransferDstOptimal,
    ImageLayout::Undefined,
    ImageLayout::Preinitialized,
    ImageLayout::Present,
];

fn image_accesses() -> Vec<ImageAccess> {
    vec![
        ImageAccess::none(),
        ImageAccess::from_bits(HalImageAccess::SHADER_READ.bits()),
        ImageAccess::from_bits(HalImageAccess::SHADER_WRITE.bits()),
        ImageAccess::from_bits(HalImageAccess::COLOR_ATTACHMENT_READ.bits()),
        ImageAccess::from_bits(HalImageAccess::COLOR_ATTACHMENT_WRITE.bits()),
        ImageAccess::from_bits((HalImageAccess::TRANSFER_READ | HalImageAccess::HOST_READ).bits()),
        ImageAccess::from_bits(HalImageAccess::MEMORY_WRITE.bits()),
    ]
}

#[test]
fn write_masks_agree_with_the_hal() {
    assert_eq!(buffer::SHADER_WRITE, HalBufferAccess::SHADER_WRITE.bits());
    assert_eq!(buffer::TRANSFER_WRITE, HalBufferAccess::TRANSFER_WRITE.bits());
    assert_eq!(buffer::HOST_WRITE, HalBufferAccess::HOST_WRITE.bits());
    assert_eq!(buffer::MEMORY_WRITE, HalBufferAccess::MEMORY_WRITE.bits());
    assert_eq!(image::SHADER_WRITE, HalImageAccess::SHADER_WRITE.bits());
    assert_eq!(
        image::COLOR_ATTACHMENT_WRITE,
        HalImageAccess::COLOR_ATTACHMENT_WRITE.bits()
    );
    assert_eq!(
        image::DEPTH_STENCIL_ATTACHMENT_WRITE,
        HalImageAccess::DEPTH_STENCIL_ATTACHMENT_WRITE.bits()
    );
    assert_eq!(image::TRANSFER_WRITE, HalImageAccess::TRANSFER_WRITE.bits());
    assert_eq!(image::HOST_WRITE, HalImageAccess::HOST_WRITE.bits());
    assert_eq!(image::MEMORY_WRITE, HalImageAccess::MEMORY_WRITE.bits());
    assert_eq!(buffer::WRITE_MASK, 0x15040);
    assert_eq!(image::WRITE_MASK, 0x15540);
}

#[test]
fn image_flags_are_classified_by_category() {
    let writes = [
        HalImageAccess::SHADER_WRITE,
        HalImageAccess::COLOR_ATTACHMENT_WRITE,
        HalImageAccess::DEPTH_STENCIL_ATTACHMENT_WRITE,
        HalImageAccess::TRANSFER_WRITE,
        HalImageAccess::HOST_WRITE,
        HalImageAccess::MEMORY_WRITE,
    ];
    let reads = [
        HalImageAccess::INPUT_ATTACHMENT_READ,
        HalImageAccess::SHADER_READ,
        HalImageAccess::COLOR_ATTACHMENT_READ,
        HalImageAccess::DEPTH_STENCIL_ATTACHMENT_READ,
        HalImageAccess::TRANSFER_READ,
        HalImageAccess::HOST_READ,
        HalImageAccess::MEMORY_READ,
    ];
    for w in writes.iter() {
        assert!(ImageAccess::from_bits(w.bits()).is_write());
    }
    for r in reads.iter() {
        assert!(!ImageAccess::from_bits(r.bits()).is_write());
    }
    let all_reads = reads.iter().fold(HalImageAccess::empty(), |a, r| a | *r);
    assert!(!ImageAccess::from_bits(all_reads.bits()).is_write());
}

#[test]
fn buffer_flags_are_classified_by_category() {
    let writes = [
        HalBufferAccess::SHADER_WRITE,
        HalBufferAccess::TRANSFER_WRITE,
        HalBufferAccess::HOST_WRITE,
        HalBufferAccess::MEMORY_WRITE,
    ];
    let reads = [
        HalBufferAccess::INDIRECT_COMMAND_READ,
        HalBufferAccess::INDEX_BUFFER_READ,
        HalBufferAccess::VERTEX_BUFFER_READ,
        HalBufferAccess::UNIFORM_READ,
        HalBufferAccess::SHADER_READ,
        HalBufferAccess::TRANSFER_READ,
        HalBufferAccess::HOST_READ,
        HalBufferAccess::MEMORY_READ,
    ];
    for w in writes.iter() {
        assert!(BufferAccess::from_bits(w.bits()).is_write());
    }
    for r in reads.iter() {
        assert!(!BufferAccess::from_bits(r.bits()).is_write());
    }
}

#[test]
fn access_union_is_a_commutative_idempotent_monoid() {
    let xs = image_accesses();
    for a in xs.iter() {
        assert_eq!(a.union(*a), *a);
        assert_eq!(a.union(ImageAccess::none()), *a);
        for b in xs.iter() {
            assert_eq!(a.union(*b), b.union(*a));
            for c in xs.iter() {
                assert_eq!(a.union(*b).union(*c), a.union(b.union(*c)));
            }
        }
    }
    let r = ImageAccess::from_bits(HalImageAccess::SHADER_READ.bits());
    let w = ImageAccess::from_bits(HalImageAccess::SHADER_WRITE.bits());
    assert_eq!(
        r.union(w).bits,
        (HalImageAccess::SHADER_READ | HalImageAccess::SHADER_WRITE).bits()
    );
}

#[test]
fn union_writes_when_an_operand_writes() {
    let xs = image_accesses();
    for a in xs.iter() {
        for b in xs.iter() {
            assert_eq!(a.union(*b).is_write(), a.is_write() || b.is_write());
        }
    }
    let r = BufferAccess::from_bits(HalBufferAccess::UNIFORM_READ.bits());
    let w = BufferAccess::from_bits(HalBufferAccess::HOST_WRITE.bits());
    assert!(!r.is_write());
    assert!(r.union(w).is_write());
}

#[test]
fn usage_union_is_a_monoid() {
    let a = BufferUsage::from_bits(0x1);
    let b = BufferUsage::from_bits(0x80);
    assert_eq!(a.union(b).bits, 0x81);
    assert_eq!(a.union(b), b.union(a));
    assert_eq!(a.union(BufferUsage::none()), a);
    let i = ImageUsage::from_bits(0x4);
    assert_eq!(i.union(i), i);
    assert_eq!(i.union(ImageUsage::from_bits(0x10)).bits, 0x14);
}

#[test]
fn stage_union_joins_masks() {
    let f = PipelineStage::from_bits(HalStage::FRAGMENT_SHADER.bits());
    let v = PipelineStage::from_bits(HalStage::VERTEX_SHADER.bits());
    assert_eq!(f.union(v).bits, 0x88);
    assert_eq!(f.union(v), v.union(f));
    assert_eq!(f.union(PipelineStage::empty()), f);
}

#[test]
fn layout_merge_is_commutative() {
    for a in ALL_LAYOUTS.iter() {
        for b in ALL_LAYOUTS.iter() {
            assert_eq!(a.merge(*b), b.merge(*a));
        }
    }
}

#[test]
fn layout_merge_is_associative_where_defined() {
    for a in ALL_LAYOUTS.iter() {
        for b in ALL_LAYOUTS.iter() {
            for c in ALL_LAYOUTS.iter() {
                if let (Some(ab), Some(bc), Some(_)) = (a.merge(*b), b.merge(*c), a.merge(*c)) {
                    let left = ab.merge(*c);
                    assert!(left.is_some());
                    assert_eq!(left, a.merge(bc));
                }
            }
        }
    }
}

#[test]
fn undefined_layout_is_identity() {
    for l in ALL_LAYOUTS.iter() {
        assert_eq!(ImageLayout::Undefined.merge(*l), Some(*l));
        assert_eq!(l.merge(ImageLayout::Undefined), Some(*l));
    }
}

#[test]
fn distinct_defined_layouts_do_not_merge() {
    assert_eq!(ImageLayout::General.merge(ImageLayout::General), Some(ImageLayout::General));
    assert_eq!(
        ImageLayout::General.merge(ImageLayout::ShaderReadOnlyOptimal),
        None
    );
    assert_eq!(ImageLayout::Present.merge(ImageLayout::Preinitialized), None);
    assert_eq!(
        ImageLayout::ColorAttachmentOptimal.merge(ImageLayout::TransferDstOptimal),
        None
    );
}

#[test]
fn buffer_layouts_always_merge() {
    assert_eq!(BufferLayout.merge(BufferLayout), Some(BufferLayout));
}

#[test]
fn compatible_states_merge_and_do_not_write() {
    let xs = image_accesses();
    let stages = PipelineStage::from_bits(HalStage::FRAGMENT_SHADER.bits());
    for a in xs.iter() {
        for la in ALL_LAYOUTS.iter() {
            let s1: State<Image> = State { access: *a, layout: *la, stages };
            assert_eq!(s1.exclusive(), a.is_write());
            for b in xs.iter() {
                for lb in ALL_LAYOUTS.iter() {
                    let s2: State<Image> = State { access: *b, layout: *lb, stages };
                    let c = s1.compatible(s2);
                    assert_eq!(c, s2.compatible(s1));
                    if c {
                        assert!(!s1.exclusive());
                        assert!(!s2.exclusive());
                        assert!(la.merge(*lb).is_some());
                        let m = s1.merge(s2);
                        assert_eq!(m.access, a.union(*b));
                    }
                }
            }
        }
    }
}

#[test]
fn exclusive_follows_buffer_writes() {
    let w: State<Buffer> = State {
        access: BufferAccess::from_bits(HalBufferAccess::SHADER_WRITE.bits()),
        layout: BufferLayout,
        stages: PipelineStage::from_bits(HalStage::COMPUTE_SHADER.bits()),
    };
    let r: State<Buffer> = State {
        access: BufferAccess::from_bits(HalBufferAccess::SHADER_READ.bits()),
        layout: BufferLayout,
        stages: PipelineStage::from_bits(HalStage::COMPUTE_SHADER.bits()),
    };
    assert!(w.exclusive());
    assert!(!r.exclusive());
    assert!(r.compatible(r));
    assert!(!w.compatible(r));
}

#[test]
fn ids_keep_their_index_and_order() {
    let a: Id<Buffer> = Id::new(3);
    let b: Id<Buffer> = Id::new(7);
    assert_eq!(a.index(), 3);
    assert_eq!(b.index(), 7);
    assert!(a < b);
    assert_eq!(a, Id::new(3));
    assert_eq!(a.clone().index(), 3);
    let big: Id<Image> = Id::new(usize::MAX);
    assert_eq!(big.index(), usize::MAX);
}

#[test]
fn ids_of_different_kinds_are_different_types() {
    assert_ne!(TypeId::of::<Id<Buffer>>(), TypeId::of::<Id<Image>>());
}
