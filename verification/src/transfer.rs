//! The one-shot transfer synthesized for a freshly placed resource block:
//! layout transitions for every created image, and an image-to-image copy
//! for each Immutable texture from its transient staging image into its
//! device-local image.

use vstd::prelude::*;

verus! {

use crate::resources::{TextureParam, TextureUsage};

/// The layouts an image moves between while a block is set up and used.
#[derive(Debug, Clone, Copy, PartialEq, Eq, Structural)]
pub enum ImageLayout {
    Preinitialized,
    TransferSrcOpt,
    TransferDestOpt,
    ShaderReadOnlyOpt,
    ColorAttachmentOpt,
    PresentSrc,
}

/// Which created image a barrier speaks of; each variant carries the index
/// of the texture descriptor the image was created for.
#[derive(Debug, Clone, Copy, PartialEq, Eq, Structural)]
pub enum ImageRef {
    Device(usize),
    Staging(usize),
    Transient(usize),
}

/// One layout-transition barrier.
#[derive(Debug, Clone, Copy, PartialEq, Eq, Structural)]
pub struct ImageBarrier {
    pub image: ImageRef,
    pub old_layout: ImageLayout,
    pub new_layout: ImageLayout,
}

/// The layout a device-local image is first transitioned into: render
/// targets go straight to shader reads, everything else first becomes a
/// transfer destination.
pub open spec fn device_target_layout(u: TextureUsage) -> ImageLayout {
    match u {
        TextureUsage::RenderTarget => ImageLayout::ShaderReadOnlyOpt,
        TextureUsage::FrequentlyUpdated => ImageLayout::TransferDestOpt,
        TextureUsage::Immutable(_) => ImageLayout::TransferDestOpt,
    }
}

/// Indices of the FrequentlyUpdated textures, in descriptor order: these get
/// persistent staging images.
pub open spec fn fu_indices(ts: Seq<TextureParam>) -> Seq<usize>
    decreases ts.len(),
{
    if ts.len() == 0 {
        Seq::empty()
    } else {
        let p = fu_indices(ts.drop_last());
        if ts.last().usage is FrequentlyUpdated {
            p.push((ts.len() - 1) as usize)
        } else {
            p
        }
    }
}

/// Indices of the Immutable textures, in descriptor order: these get
/// transient staging images and a one-shot copy.
pub open spec fn imm_indices(ts: Seq<TextureParam>) -> Seq<usize>
    decreases ts.len(),
{
    if ts.len() == 0 {
        Seq::empty()
    } else {
        let p = imm_indices(ts.drop_last());
        if ts.last().usage is Immutable {
            p.push((ts.len() - 1) as usize)
        } else {
            p
        }
    }
}

/// Initial transitions of the device-local images, one per texture, out of
/// their preinitialized state into the layout their usage calls for.
pub open spec fn device_initial_barriers(ts: Seq<TextureParam>) -> Seq<ImageBarrier> {
    Seq::new(
        ts.len(),
        |i: int|
            ImageBarrier {
                image: ImageRef::Device(i as usize),
                old_layout: ImageLayout::Preinitialized,
                new_layout: device_target_layout(ts[i].usage),
            },
    )
}

/// Initial transitions of the persistent staging images into transfer
/// sources, one per FrequentlyUpdated texture.
pub open spec fn staging_initial_barriers(ts: Seq<TextureParam>) -> Seq<ImageBarrier>
    decreases ts.len(),
{
    if ts.len() == 0 {
        Seq::empty()
    } else {
        let p = staging_initial_barriers(ts.drop_last());
        if ts.last().usage is FrequentlyUpdated {
            p.push(
                ImageBarrier {
                    image: ImageRef::Staging((ts.len() - 1) as usize),
                    old_layout: ImageLayout::Preinitialized,
                    new_layout: ImageLayout::TransferSrcOpt,
                },
            )
        } else {
            p
        }
    }
}

/// Initial transitions of the transient staging images into transfer
/// sources, one per Immutable texture.
pub open spec fn transient_initial_barriers(ts: Seq<TextureParam>) -> Seq<ImageBarrier>
    decreases ts.len(),
{
    if ts.len() == 0 {
        Seq::empty()
    } else {
        let p = transient_initial_barriers(ts.drop_last());
        if ts.last().usage is Immutable {
            p.push(
                ImageBarrier {
                    image: ImageRef::Transient((ts.len() - 1) as usize),
                    old_layout: ImageLayout::Preinitialized,
                    new_layout: ImageLayout::TransferSrcOpt,
                },
            )
        } else {
            p
        }
    }
}

/// After the copies: each Immutable texture's now-populated device image
/// moves from transfer destination to shader reads.
pub open spec fn final_transfer_barriers(ts: Seq<TextureParam>) -> Seq<ImageBarrier>
    decreases ts.len(),
{
    if ts.len() == 0 {
        Seq::empty()
    } else {
        let p = final_transfer_barriers(ts.drop_last());
        if ts.last().usage is Immutable {
            p.push(
                ImageBarrier {
                    image: ImageRef::Device((ts.len() - 1) as usize),
                    old_layout: ImageLayout::TransferDestOpt,
                    new_layout: ImageLayout::ShaderReadOnlyOpt,
                },
            )
        } else {
            p
        }
    }
}

/// The one-shot command sequence recorded after placement: first every
/// initial transition, then one copy per Immutable texture from its
/// transient staging image into its device image, then the final
/// transitions. It is submitted and waited on before the block is handed
/// back.
#[derive(Debug, PartialEq, Eq)]
pub struct TransferPlan {
    pub initial_barriers: Vec<ImageBarrier>,
    pub final_barriers: Vec<ImageBarrier>,
    /// Texture indices, in order: copy transient image `k` into device image
    /// `k` for each entry `k`.
    pub copies: Vec<usize>,
}

/// Synthesizes the transfer for a texture list: initial barriers for the
/// device images, then the persistent staging images, then the transient
/// ones; a copy per Immutable texture; final barriers for the copied-into
/// device images.
pub fn plan_transfer(ts: &Vec<TextureParam>) -> (r: TransferPlan)
    ensures
        r.initial_barriers@ == device_initial_barriers(ts@) + staging_initial_barriers(ts@)
            + transient_initial_barriers(ts@),
        r.final_barriers@ == final_transfer_barriers(ts@),
        r.copies@ == imm_indices(ts@),
{
    let mut initial: Vec<ImageBarrier> = Vec::new();
    let mut j: usize = 0;
    while j < ts.len()
        invariant
            0 <= j <= ts@.len(),
            initial@ =~= device_initial_barriers(ts@).take(j as int),
        decreases ts@.len() - j,
    {
        let new_layout = match &ts[j].usage {
            TextureUsage::RenderTarget => ImageLayout::ShaderReadOnlyOpt,
            _ => ImageLayout::TransferDestOpt,
        };
        initial.push(
            ImageBarrier {
                image: ImageRef::Device(j),
                old_layout: ImageLayout::Preinitialized,
                new_layout,
            },
        );
        j = j + 1;
        proof {
            assert(initial@ =~= device_initial_barriers(ts@).take(j as int));
        }
    }
    proof {
        assert(device_initial_barriers(ts@).take(ts@.len() as int) =~= device_initial_barriers(
            ts@,
        ));
    }
    let mut j: usize = 0;
    while j < ts.len()
        invariant
            0 <= j <= ts@.len(),
            initial@ == device_initial_barriers(ts@) + staging_initial_barriers(
                ts@.take(j as int),
            ),
        decreases ts@.len() - j,
    {
        proof {
            assert(ts@.take(j as int + 1).drop_last() =~= ts@.take(j as int));
        }
        if ts[j].usage.is_frequently_updated() {
            initial.push(
                ImageBarrier {
                    image: ImageRef::Staging(j),
                    old_layout: ImageLayout::Preinitialized,
                    new_layout: ImageLayout::TransferSrcOpt,
                },
            );
        }
        j = j + 1;
    }
    proof {
        assert(ts@.take(ts@.len() as int) =~= ts@);
        assert(initial@ =~= device_initial_barriers(ts@) + staging_initial_barriers(ts@)
            + transient_initial_barriers(ts@.take(0)));
    }
    let mut final_barriers: Vec<ImageBarrier> = Vec::new();
    let mut copies: Vec<usize> = Vec::new();
    let mut j: usize = 0;
    while j < ts.len()
        invariant
            0 <= j <= ts@.len(),
            initial@ == device_initial_barriers(ts@) + staging_initial_barriers(ts@)
                + transient_initial_barriers(ts@.take(j as int)),
            final_barriers@ == final_transfer_barriers(ts@.take(j as int)),
            copies@ == imm_indices(ts@.take(j as int)),
        decreases ts@.len() - j,
    {
        proof {
            assert(ts@.take(j as int + 1).drop_last() =~= ts@.take(j as int));
        }
        if ts[j].usage.is_immutable() {
            initial.push(
                ImageBarrier {
                    image: ImageRef::Transient(j),
                    old_layout: ImageLayout::Preinitialized,
                    new_layout: ImageLayout::TransferSrcOpt,
                },
            );
            final_barriers.push(
                ImageBarrier {
                    image: ImageRef::Device(j),
                    old_layout: ImageLayout::TransferDestOpt,
                    new_layout: ImageLayout::ShaderReadOnlyOpt,
                },
            );
            copies.push(j);
        }
        j = j + 1;
    }
    proof {
        assert(ts@.take(ts@.len() as int) =~= ts@);
    }
    TransferPlan { initial_barriers: initial, final_barriers, copies }
}

/// Collects the indices of the FrequentlyUpdated textures.
pub fn frequently_updated_indices(ts: &Vec<TextureParam>) -> (r: Vec<usize>)
    ensures
        r@ == fu_indices(ts@),
{
    let mut out: Vec<usize> = Vec::new();
    let mut j: usize = 0;
    while j < ts.len()
        invariant
            0 <= j <= ts@.len(),
            out@ == fu_indices(ts@.take(j as int)),
        decreases ts@.len() - j,
    {
        proof {
            assert(ts@.take(j as int + 1).drop_last() =~= ts@.take(j as int));
        }
        if ts[j].usage.is_frequently_updated() {
            out.push(j);
        }
        j = j + 1;
    }
    proof {
        assert(ts@.take(ts@.len() as int) =~= ts@);
    }
    out
}

/// Collects the indices of the Immutable textures.
pub fn immutable_indices(ts: &Vec<TextureParam>) -> (r: Vec<usize>)
    ensures
        r@ == imm_indices(ts@),
{
    let mut out: Vec<usize> = Vec::new();
    let mut j: usize = 0;
    while j < ts.len()
        invariant
            0 <= j <= ts@.len(),
            out@ == imm_indices(ts@.take(j as int)),
        decreases ts@.len() - j,
    {
        proof {
            assert(ts@.take(j as int + 1).drop_last() =~= ts@.take(j as int));
        }
        if ts[j].usage.is_immutable() {
            out.push(j);
        }
        j = j + 1;
    }
    proof {
        assert(ts@.take(ts@.len() as int) =~= ts@);
    }
    out
}

} // verus!
