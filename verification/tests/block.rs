use dc2017::block::{create_resources, into_resource_block};
use dc2017::resources::{
    image_usage_flags, staging_image_usage_flags, BufferContent, BufferKind, ColorFormat,
    MemoryRequirements, Size2U, TextureParam, TextureUsage,
};
use dc2017::transfer::{
    frequently_updated_indices, immutable_indices, ImageLayout, ImageRef,
};

fn tex(usage: TextureUsage) -> TextureParam {
    TextureParam { size: Size2U { x: 64, y: 64 }, layers: 1, color: ColorFormat::WithAlpha, usage }
}

fn req(size: u64, alignment: u64) -> MemoryRequirements {
    MemoryRequirements { size, alignment }
}

#[test]
fn two_frequently_updated_textures_keep_their_staging_images() {
    // Two 64x64 RGBA frequently updated textures: both regions hold two
    // bound images, and the staging images survive in the block while no
    // transient image exists at all.
    let textures = vec![tex(TextureUsage::FrequentlyUpdated), tex(TextureUsage::FrequentlyUpdated)];
    let reqs = vec![req(16384, 256), req(16384, 256)];
    let staging_reqs = vec![req(16384, 4), req(16384, 4)];
    let plan = create_resources(
        &Vec::new(),
        &textures,
        256,
        1,
        1,
        &reqs,
        &staging_reqs,
        &Vec::new(),
    );
    assert_eq!(plan.texture_offsets, vec![0, 16384]);
    assert_eq!(plan.staging_placements.len(), 2);
    assert_eq!(plan.staging_placements[0].texture_index, 0);
    assert_eq!(plan.staging_placements[0].offset, 0);
    assert_eq!(plan.staging_placements[1].texture_index, 1);
    assert_eq!(plan.staging_placements[1].offset, 16384);
    assert!(plan.transient_placements.is_empty());
    assert_eq!(plan.device_local_size, 32768);
    assert_eq!(plan.host_visible_size, 32768);
    assert_eq!(plan.transient_size, 0);
    assert!(plan.transfer.copies.is_empty());
    assert!(plan.transfer.final_barriers.is_empty());
    // One transition per device image and one per staging image.
    assert_eq!(plan.transfer.initial_barriers.len(), 4);

    let block = into_resource_block(plan);
    assert!(block.buffer.is_none());
    assert_eq!(block.image_offsets.len(), 2);
    assert_eq!(block.staging_images.len(), 2);
}

#[test]
fn immutable_texture_gets_transient_copy_and_no_retained_staging() {
    let textures = vec![tex(TextureUsage::Immutable(vec![7u8; 16384]))];
    let reqs = vec![req(16384, 256)];
    let transient_reqs = vec![req(16384, 4)];
    let plan = create_resources(
        &Vec::new(),
        &textures,
        256,
        1,
        1,
        &reqs,
        &Vec::new(),
        &transient_reqs,
    );
    assert!(plan.staging_placements.is_empty());
    assert_eq!(plan.transient_placements.len(), 1);
    assert_eq!(plan.transient_placements[0].texture_index, 0);
    assert_eq!(plan.transient_placements[0].offset, 0);
    assert_eq!(plan.transient_size, 16384);
    assert_eq!(plan.transfer.copies, vec![0]);
    assert_eq!(plan.transfer.final_barriers.len(), 1);
    assert_eq!(plan.transfer.final_barriers[0].image, ImageRef::Device(0));
    assert_eq!(plan.transfer.final_barriers[0].old_layout, ImageLayout::TransferDestOpt);
    assert_eq!(plan.transfer.final_barriers[0].new_layout, ImageLayout::ShaderReadOnlyOpt);

    let block = into_resource_block(plan);
    assert!(block.staging_images.is_empty());
}

#[test]
fn usage_decides_initial_layout() {
    let textures = vec![
        tex(TextureUsage::RenderTarget),
        tex(TextureUsage::FrequentlyUpdated),
        tex(TextureUsage::Immutable(vec![0u8; 4])),
    ];
    let reqs = vec![req(16384, 256); 3];
    let staging_reqs = vec![req(16384, 4)];
    let transient_reqs = vec![req(16384, 4)];
    let plan = create_resources(
        &Vec::new(),
        &textures,
        256,
        1,
        1,
        &reqs,
        &staging_reqs,
        &transient_reqs,
    );
    let b = &plan.transfer.initial_barriers;
    // Device images first, in descriptor order.
    assert_eq!(b[0].image, ImageRef::Device(0));
    assert_eq!(b[0].old_layout, ImageLayout::Preinitialized);
    assert_eq!(b[0].new_layout, ImageLayout::ShaderReadOnlyOpt);
    assert_eq!(b[1].image, ImageRef::Device(1));
    assert_eq!(b[1].new_layout, ImageLayout::TransferDestOpt);
    assert_eq!(b[2].image, ImageRef::Device(2));
    assert_eq!(b[2].new_layout, ImageLayout::TransferDestOpt);
    // Then the persistent staging image, then the transient one.
    assert_eq!(b[3].image, ImageRef::Staging(1));
    assert_eq!(b[3].new_layout, ImageLayout::TransferSrcOpt);
    assert_eq!(b[4].image, ImageRef::Transient(2));
    assert_eq!(b[4].new_layout, ImageLayout::TransferSrcOpt);
    assert_eq!(b.len(), 5);
}

#[test]
fn staging_paths_follow_usage() {
    let textures = vec![
        tex(TextureUsage::RenderTarget),
        tex(TextureUsage::FrequentlyUpdated),
        tex(TextureUsage::Immutable(vec![0u8; 4])),
        tex(TextureUsage::FrequentlyUpdated),
    ];
    assert_eq!(frequently_updated_indices(&textures), vec![1, 3]);
    assert_eq!(immutable_indices(&textures), vec![2]);
    assert_eq!(frequently_updated_indices(&Vec::new()), Vec::<usize>::new());
}

#[test]
fn usage_decides_image_access_flags() {
    let rt = image_usage_flags(&TextureUsage::RenderTarget);
    assert!(rt.sampled && rt.color_attachment && !rt.transfer_dest && !rt.transfer_src);
    let fu = image_usage_flags(&TextureUsage::FrequentlyUpdated);
    assert!(fu.sampled && !fu.color_attachment && fu.transfer_dest && !fu.transfer_src);
    let im = image_usage_flags(&TextureUsage::Immutable(vec![1, 2, 3]));
    assert!(im.sampled && !im.color_attachment && im.transfer_dest && !im.transfer_src);
    let st = staging_image_usage_flags();
    assert!(!st.sampled && !st.color_attachment && !st.transfer_dest && st.transfer_src);
}

#[test]
fn default_texture_is_one_pixel_frequently_updated() {
    let t = TextureParam::default();
    assert_eq!(t.size, Size2U { x: 1, y: 1 });
    assert_eq!(t.layers, 1);
    assert_eq!(t.color, ColorFormat::WithAlpha);
    assert_eq!(t.usage, TextureUsage::FrequentlyUpdated);
}

#[test]
fn buffers_alone_make_a_buffer_sized_region() {
    let buffers = vec![BufferContent { kind: BufferKind::Index, bytesize: 120 }];
    let plan = create_resources(
        &buffers,
        &Vec::new(),
        256,
        1,
        1,
        &Vec::new(),
        &Vec::new(),
        &Vec::new(),
    );
    assert_eq!(plan.buffer_size, 120);
    assert_eq!(plan.buffer_base, 0);
    assert_eq!(plan.device_local_size, 120);
    assert_eq!(plan.host_visible_size, 120);
    assert!(plan.transfer.initial_barriers.is_empty());
    assert!(plan.texture_offsets.is_empty());
}

#[test]
fn combined_buffer_lands_behind_images() {
    let buffers = vec![
        BufferContent { kind: BufferKind::Vertex, bytesize: 256 },
        BufferContent { kind: BufferKind::Constant, bytesize: 40 },
    ];
    let textures = vec![tex(TextureUsage::RenderTarget)];
    let reqs = vec![req(100, 64)];
    let plan = create_resources(&buffers, &textures, 256, 16, 16, &reqs, &Vec::new(), &Vec::new());
    assert_eq!(plan.buffer_size, 296);
    assert!(plan.buffer_usage.vertex && plan.buffer_usage.uniform && !plan.buffer_usage.index);
    // 100 image bytes rounded to the buffer's 16-byte alignment.
    assert_eq!(plan.buffer_base, 112);
    assert_eq!(plan.device_local_size, 408);
    // The host-visible region has no staging image, only the staging copy of
    // the combined buffer.
    assert_eq!(plan.staging_buffer_base, 0);
    assert_eq!(plan.host_visible_size, 296);

    let block = into_resource_block(plan);
    let placed = block.buffer.expect("a combined buffer was requested");
    assert_eq!(placed.offset, 112);
    assert_eq!(placed.bytesize, 296);
}
