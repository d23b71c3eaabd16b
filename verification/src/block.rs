//! One allocator call: place every requested buffer and texture into the
//! device-local region, plan the persistent staging region for frequently
//! updated textures and the transient one for immutable initial data, and
//! synthesize the one-shot transfer. The resulting plan is everything the
//! device needs to create, bind and populate the objects; what survives the
//! call is kept in a [`ResourceBlock`].

use vstd::prelude::*;

verus! {

use crate::align::spec_align_up;
use crate::placement::{
    buffer_cursor, buffer_offset, image_cursor, image_offset, plan_buffer_placements,
    plan_image_placements, region_total_size, valid_requirements, BufferPlacement,
};
use crate::resources::{
    combined_buffer_usage, BufferContent, BufferUsageFlags, MemoryRequirements, TextureParam,
};
use crate::transfer::{
    device_initial_barriers, final_transfer_barriers, frequently_updated_indices, fu_indices,
    imm_indices, immutable_indices, plan_transfer, staging_initial_barriers,
    transient_initial_barriers, TransferPlan,
};

/// A staging image's place: which texture descriptor it serves and where it
/// sits in its host-visible region.
#[derive(Debug, Clone, Copy, PartialEq, Eq, Structural)]
pub struct StagingPlacement {
    pub texture_index: usize,
    pub offset: u64,
}

/// Everything one allocator call decides: offsets, region sizes, usage flags
/// and the transfer commands.
#[derive(Debug, PartialEq, Eq)]
pub struct ResourcePlan {
    /// Offset and size of each requested buffer region inside the combined
    /// buffer, in descriptor order.
    pub buffer_placements: Vec<BufferPlacement>,
    /// Size of the combined buffer object; zero means no buffer is created.
    pub buffer_size: u64,
    /// Union of the usage capabilities the combined buffer needs.
    pub buffer_usage: BufferUsageFlags,
    /// Offset of each device-local image, in descriptor order.
    pub texture_offsets: Vec<u64>,
    /// Offset of the combined buffer inside the device-local region.
    pub buffer_base: u64,
    /// Total size of the device-local region.
    pub device_local_size: u64,
    /// Persistent staging images, one per FrequentlyUpdated texture.
    pub staging_placements: Vec<StagingPlacement>,
    /// Offset of the staging copy of the combined buffer in the host region.
    pub staging_buffer_base: u64,
    /// Total size of the host-visible region.
    pub host_visible_size: u64,
    /// Transient staging images, one per Immutable texture; released once
    /// the transfer has completed.
    pub transient_placements: Vec<StagingPlacement>,
    /// Total size of the transient host-visible region.
    pub transient_size: u64,
    /// The one-shot transfer recorded, submitted and waited on before the
    /// call returns.
    pub transfer: TransferPlan,
}

/// Pairs each collected texture index with its image offset.
fn zip_placements(indices: &Vec<usize>, offsets: &Vec<u64>) -> (r: Vec<StagingPlacement>)
    requires
        indices@.len() == offsets@.len(),
    ensures
        r@.len() == indices@.len(),
        forall|k: int|
            0 <= k < r@.len() ==> #[trigger] r@[k] == (StagingPlacement {
                texture_index: indices@[k],
                offset: offsets@[k],
            }),
{
    let mut out: Vec<StagingPlacement> = Vec::new();
    let mut k: usize = 0;
    while k < indices.len()
        invariant
            indices@.len() == offsets@.len(),
            0 <= k <= indices@.len(),
            out@.len() == k,
            forall|i: int|
                0 <= i < k ==> #[trigger] out@[i] == (StagingPlacement {
                    texture_index: indices@[i],
                    offset: offsets@[i],
                }),
        decreases indices@.len() - k,
    {
        out.push(StagingPlacement { texture_index: indices[k], offset: offsets[k] });
        k = k + 1;
    }
    out
}

/// Places every requested resource and plans the transfer, in the order the
/// device works: buffers packed by the sequential cursor, then the device
/// images, then the persistent staging images, then the transient ones.
///
/// The caller supplies what only the device knows: its minimum
/// constant-buffer alignment, the reported alignment of the combined buffer
/// (one when no buffer is created), and the reported requirements of every
/// created image — one entry per texture for the device-local pass, one per
/// FrequentlyUpdated texture for the staging pass, one per Immutable texture
/// for the transient pass, each in descriptor order.
pub fn create_resources(
    buffers: &Vec<BufferContent>,
    textures: &Vec<TextureParam>,
    const_align: u64,
    buffer_align: u64,
    staging_buffer_align: u64,
    texture_reqs: &Vec<MemoryRequirements>,
    staging_reqs: &Vec<MemoryRequirements>,
    transient_reqs: &Vec<MemoryRequirements>,
) -> (r: ResourcePlan)
    requires
        1 <= const_align,
        1 <= buffer_align,
        1 <= staging_buffer_align,
        texture_reqs@.len() == textures@.len(),
        staging_reqs@.len() == fu_indices(textures@).len(),
        transient_reqs@.len() == imm_indices(textures@).len(),
        valid_requirements(texture_reqs@),
        valid_requirements(staging_reqs@),
        valid_requirements(transient_reqs@),
        buffer_cursor(buffers@, const_align as int) <= u64::MAX,
        spec_align_up(image_cursor(texture_reqs@), buffer_align as int) + buffer_cursor(
            buffers@,
            const_align as int,
        ) <= u64::MAX,
        spec_align_up(image_cursor(staging_reqs@), staging_buffer_align as int) + buffer_cursor(
            buffers@,
            const_align as int,
        ) <= u64::MAX,
        image_cursor(transient_reqs@) <= u64::MAX,
    ensures
        r.buffer_placements@.len() == buffers@.len(),
        forall|i: int|
            0 <= i < buffers@.len() ==> #[trigger] r.buffer_placements@[i].offset == buffer_offset(
                buffers@,
                const_align as int,
                i,
            ) && r.buffer_placements@[i].bytesize == buffers@[i].bytesize,
        r.buffer_size == buffer_cursor(buffers@, const_align as int),
        r.buffer_usage.vertex == (exists|i: int|
            0 <= i < buffers@.len() && buffers@[i].kind is Vertex),
        r.buffer_usage.index == (exists|i: int|
            0 <= i < buffers@.len() && buffers@[i].kind is Index),
        r.buffer_usage.uniform == (exists|i: int|
            0 <= i < buffers@.len() && buffers@[i].kind is Constant),
        r.texture_offsets@.len() == textures@.len(),
        forall|i: int|
            0 <= i < textures@.len() ==> #[trigger] r.texture_offsets@[i] == image_offset(
                texture_reqs@,
                i,
            ),
        r.buffer_base == spec_align_up(image_cursor(texture_reqs@), buffer_align as int),
        r.device_local_size == r.buffer_base + r.buffer_size,
        r.staging_placements@.len() == fu_indices(textures@).len(),
        forall|k: int|
            0 <= k < r.staging_placements@.len() ==> #[trigger] r.staging_placements@[k]
                == (StagingPlacement {
                texture_index: fu_indices(textures@)[k],
                offset: image_offset(staging_reqs@, k) as u64,
            }),
        r.staging_buffer_base == spec_align_up(
            image_cursor(staging_reqs@),
            staging_buffer_align as int,
        ),
        r.host_visible_size == r.staging_buffer_base + r.buffer_size,
        r.transient_placements@.len() == imm_indices(textures@).len(),
        forall|k: int|
            0 <= k < r.transient_placements@.len() ==> #[trigger] r.transient_placements@[k]
                == (StagingPlacement {
                texture_index: imm_indices(textures@)[k],
                offset: image_offset(transient_reqs@, k) as u64,
            }),
        r.transient_size == image_cursor(transient_reqs@),
        r.transfer.initial_barriers@ == device_initial_barriers(textures@)
            + staging_initial_barriers(textures@) + transient_initial_barriers(textures@),
        r.transfer.final_barriers@ == final_transfer_barriers(textures@),
        r.transfer.copies@ == imm_indices(textures@),
{
    let (buffer_placements, buffer_size) = plan_buffer_placements(buffers, const_align);
    let buffer_usage = combined_buffer_usage(buffers);
    let (texture_offsets, texture_total) = plan_image_placements(texture_reqs);
    let (buffer_base, device_local_size) = region_total_size(
        texture_total,
        buffer_align,
        buffer_size,
    );
    let fu = frequently_updated_indices(textures);
    let (staging_offsets, staging_total) = plan_image_placements(staging_reqs);
    let staging_placements = zip_placements(&fu, &staging_offsets);
    let (staging_buffer_base, host_visible_size) = region_total_size(
        staging_total,
        staging_buffer_align,
        buffer_size,
    );
    let imm = immutable_indices(textures);
    let (transient_offsets, transient_size) = plan_image_placements(transient_reqs);
    let transient_placements = zip_placements(&imm, &transient_offsets);
    let transfer = plan_transfer(textures);
    ResourcePlan {
        buffer_placements,
        buffer_size,
        buffer_usage,
        texture_offsets,
        buffer_base,
        device_local_size,
        staging_placements,
        staging_buffer_base,
        host_visible_size,
        transient_placements,
        transient_size,
        transfer,
    }
}

/// What one allocator call leaves alive, destroyed as a unit: the two memory
/// regions, the combined buffer if any descriptor asked for one, one
/// device-local image per texture, and the persistent staging images of the
/// FrequentlyUpdated textures. The transient staging images of Immutable
/// textures are not kept: their data has already been copied when the call
/// returns.
#[derive(Debug, PartialEq, Eq)]
pub struct ResourceBlock {
    pub device_local_size: u64,
    pub host_visible_size: u64,
    /// Offset of the combined buffer in the device-local region, when one
    /// was created.
    pub buffer: Option<BufferPlacement>,
    /// Offset of each device-local image, in descriptor order.
    pub image_offsets: Vec<u64>,
    /// The retained staging images: one per FrequentlyUpdated texture,
    /// re-written by the caller every frame.
    pub staging_images: Vec<StagingPlacement>,
}

/// Keeps of a finished plan exactly what outlives the call: a buffer entry
/// only when a buffer was created, every device image, and the persistent
/// staging images — never the transient ones.
pub fn into_resource_block(plan: ResourcePlan) -> (r: ResourceBlock)
    ensures
        r.device_local_size == plan.device_local_size,
        r.host_visible_size == plan.host_visible_size,
        plan.buffer_size > 0 ==> r.buffer == Some(
            BufferPlacement { offset: plan.buffer_base, bytesize: plan.buffer_size },
        ),
        plan.buffer_size == 0 ==> r.buffer is None,
        r.image_offsets == plan.texture_offsets,
        r.staging_images == plan.staging_placements,
{
    let buffer = if plan.buffer_size > 0 {
        Some(BufferPlacement { offset: plan.buffer_base, bytesize: plan.buffer_size })
    } else {
        None
    };
    ResourceBlock {
        device_local_size: plan.device_local_size,
        host_visible_size: plan.host_visible_size,
        buffer,
        image_offsets: plan.texture_offsets,
        staging_images: plan.staging_placements,
    }
}

} // verus!
