//! Descriptors for the resources a scene asks for, and the usage flags the
//! device objects are created with.

use vstd::prelude::*;

verus! {

/// Pixel dimensions of a texture.
#[derive(Debug, Clone, Copy, PartialEq, Eq, Structural)]
pub struct Size2U {
    pub x: u32,
    pub y: u32,
}

/// What a buffer region is bound as. Constant-kind regions must start on the
/// device's minimum constant-buffer alignment; the other kinds are packed
/// back to back.
#[derive(Debug, Clone, Copy, PartialEq, Eq, Structural)]
pub enum BufferKind {
    Vertex,
    Index,
    Constant,
}

/// One requested buffer region: its kind and its size in bytes.
#[derive(Debug, Clone, Copy, PartialEq, Eq, Structural)]
pub struct BufferContent {
    pub kind: BufferKind,
    pub bytesize: u64,
}

/// Pixel layout of a texture.
#[derive(Debug, Clone, Copy, PartialEq, Eq, Structural)]
pub enum ColorFormat {
    Grayscale,
    Default,
    WithAlpha,
}

/// How a texture will be used, which decides its access flags and whether a
/// staging path is needed. `Immutable` carries the initial pixel bytes that
/// are uploaded once through a transient staging image.
#[derive(Debug, PartialEq, Eq)]
pub enum TextureUsage {
    Immutable(Vec<u8>),
    FrequentlyUpdated,
    RenderTarget,
}

impl TextureUsage {
    pub fn is_immutable(&self) -> (r: bool)
        ensures
            r == (self is Immutable),
    {
        match self {
            TextureUsage::Immutable(_) => true,
            _ => false,
        }
    }

    pub fn is_frequently_updated(&self) -> (r: bool)
        ensures
            r == (self is FrequentlyUpdated),
    {
        match self {
            TextureUsage::FrequentlyUpdated => true,
            _ => false,
        }
    }

    pub fn initial_pixels(&self) -> (r: Option<&Vec<u8>>)
        ensures
            self is Immutable ==> r == Some(&self->Immutable_0),
            !(self is Immutable) ==> r is None,
    {
        match self {
            TextureUsage::Immutable(p) => Some(p),
            _ => None,
        }
    }
}

/// One requested texture.
#[derive(Debug, PartialEq, Eq)]
pub struct TextureParam {
    pub size: Size2U,
    pub layers: u32,
    pub color: ColorFormat,
    pub usage: TextureUsage,
}

impl Default for TextureParam {
    /// A one-pixel, single-layer, alpha-capable, frequently updated texture.
    fn default() -> (r: Self)
        ensures
            r.size == (Size2U { x: 1, y: 1 }),
            r.layers == 1,
            r.color == ColorFormat::WithAlpha,
            r.usage is FrequentlyUpdated,
    {
        TextureParam {
            size: Size2U { x: 1, y: 1 },
            layers: 1,
            color: ColorFormat::WithAlpha,
            usage: TextureUsage::FrequentlyUpdated,
        }
    }
}

/// Union of the buffer-usage capabilities a combined buffer object needs.
#[derive(Debug, Clone, Copy, PartialEq, Eq, Structural)]
pub struct BufferUsageFlags {
    pub vertex: bool,
    pub index: bool,
    pub uniform: bool,
}

/// The capability a single buffer descriptor asks for.
pub fn buffer_kind_usage(kind: BufferKind) -> (r: BufferUsageFlags)
    ensures
        r.vertex == (kind is Vertex),
        r.index == (kind is Index),
        r.uniform == (kind is Constant),
{
    match kind {
        BufferKind::Vertex => BufferUsageFlags { vertex: true, index: false, uniform: false },
        BufferKind::Index => BufferUsageFlags { vertex: false, index: true, uniform: false },
        BufferKind::Constant => BufferUsageFlags { vertex: false, index: false, uniform: true },
    }
}

/// The union of the usage capabilities of every descriptor in the list: the
/// combined buffer object is created with exactly these.
pub fn combined_buffer_usage(descs: &Vec<BufferContent>) -> (r: BufferUsageFlags)
    ensures
        r.vertex == (exists|i: int| 0 <= i < descs@.len() && descs@[i].kind is Vertex),
        r.index == (exists|i: int| 0 <= i < descs@.len() && descs@[i].kind is Index),
        r.uniform == (exists|i: int| 0 <= i < descs@.len() && descs@[i].kind is Constant),
{
    let mut r = BufferUsageFlags { vertex: false, index: false, uniform: false };
    let mut j: usize = 0;
    while j < descs.len()
        invariant
            0 <= j <= descs@.len(),
            r.vertex == (exists|i: int| 0 <= i < j && descs@[i].kind is Vertex),
            r.index == (exists|i: int| 0 <= i < j && descs@[i].kind is Index),
            r.uniform == (exists|i: int| 0 <= i < j && descs@[i].kind is Constant),
        decreases descs@.len() - j,
    {
        let k = buffer_kind_usage(descs[j].kind);
        let next = BufferUsageFlags {
            vertex: r.vertex || k.vertex,
            index: r.index || k.index,
            uniform: r.uniform || k.uniform,
        };
        proof {
            if k.vertex {
                assert(descs@[j as int].kind is Vertex);
            }
            if k.index {
                assert(descs@[j as int].kind is Index);
            }
            if k.uniform {
                assert(descs@[j as int].kind is Constant);
            }
        }
        r = next;
        j = j + 1;
    }
    r
}

/// Access flags an image object is created with, derived from its usage:
/// render targets are sampled colour attachments, everything else is sampled
/// and written through transfers; staging images are transfer sources.
#[derive(Debug, Clone, Copy, PartialEq, Eq, Structural)]
pub struct ImageUsageFlags {
    pub sampled: bool,
    pub color_attachment: bool,
    pub transfer_dest: bool,
    pub transfer_src: bool,
}

/// Flags for a device-local image, decided by the descriptor's usage.
pub fn image_usage_flags(usage: &TextureUsage) -> (r: ImageUsageFlags)
    ensures
        r.sampled,
        r.color_attachment == (usage is RenderTarget),
        r.transfer_dest == !(usage is RenderTarget),
        !r.transfer_src,
{
    match usage {
        TextureUsage::RenderTarget => ImageUsageFlags {
            sampled: true,
            color_attachment: true,
            transfer_dest: false,
            transfer_src: false,
        },
        TextureUsage::FrequentlyUpdated | TextureUsage::Immutable(_) => ImageUsageFlags {
            sampled: true,
            color_attachment: false,
            transfer_dest: true,
            transfer_src: false,
        },
    }
}

/// Flags for a linear staging image: only ever read by transfers.
pub fn staging_image_usage_flags() -> (r: ImageUsageFlags)
    ensures
        r == (ImageUsageFlags {
            sampled: false,
            color_attachment: false,
            transfer_dest: false,
            transfer_src: true,
        }),
{
    ImageUsageFlags { sampled: false, color_attachment: false, transfer_dest: false, transfer_src: true }
}

/// Size and alignment the device reports for one created object; placement
/// must respect both.
#[derive(Debug, Clone, Copy, PartialEq, Eq, Structural)]
pub struct MemoryRequirements {
    pub size: u64,
    pub alignment: u64,
}

} // verus!
