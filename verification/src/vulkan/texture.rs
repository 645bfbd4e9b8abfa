use vstd::prelude::*;

verus! {

/// Number of mip levels a blit chain produces for an image whose smaller
/// dimension is `m`: one base level plus one per halving down to 1.
pub open spec fn spec_mip_level_count(m: nat) -> nat
    decreases m,
{
    if m <= 1 {
        1
    } else {
        1 + spec_mip_level_count(m / 2)
    }
}

proof fn lemma_mip_level_count_le(m: nat)
    requires
        m >= 1,
    ensures
        1 <= spec_mip_level_count(m) <= m,
    decreases m,
{
    if m > 1 {
        lemma_mip_level_count_le(m / 2);
    }
}

/// Computes how many mip levels a blit chain produces for a `w` by `h`
/// image: `floor(log2(min(w, h))) + 1`.
pub fn mip_level_count(w: u32, h: u32) -> (levels: u32)
    requires
        w > 0,
        h > 0,
    ensures
        levels == spec_mip_level_count(if w <= h {
            w as nat
        } else {
            h as nat
        }),
        levels >= 1,
{
    let min: u32 = if w <= h { w } else { h };
    let mut m: u32 = min;
    let mut levels: u32 = 1;
    while m > 1
        invariant
            1 <= m <= min,
            levels + spec_mip_level_count(m as nat) == spec_mip_level_count(min as nat) + 1,
        decreases m,
    {
        proof {
            lemma_mip_level_count_le(min as nat);
            lemma_mip_level_count_le(m as nat);
            lemma_mip_level_count_le((m / 2) as nat);
        }
        m = m / 2;
        levels = levels + 1;
    }
    levels
}

/// A dimension of mip level `level`, given the dimension `d` of the base
/// level: halved once per level, never below 1.
pub open spec fn spec_mip_dim(d: nat, level: nat) -> nat
    decreases level,
{
    if level == 0 {
        d
    } else {
        let p = spec_mip_dim(d, (level - 1) as nat);
        if p > 1 {
            p / 2
        } else {
            p
        }
    }
}

/// One blit of the mip chain: level `level - 1` at the source size is
/// filtered down into level `level` at the destination size.
#[derive(Debug, Clone, Copy, PartialEq, Eq, Structural)]
pub struct MipBlit {
    pub level: u32,
    pub src_width: u32,
    pub src_height: u32,
    pub dst_width: u32,
    pub dst_height: u32,
}

/// Computes the blit chain that fills mip levels `1 .. mip_levels` of a
/// `width` by `height` image: each blit reads the previous level at its size
/// and writes the next level at half that size, floored at one texel.
pub fn mip_blit_chain(width: u32, height: u32, mip_levels: u32) -> (chain: Vec<MipBlit>)
    requires
        width >= 1,
        height >= 1,
        mip_levels >= 1,
    ensures
        chain@.len() == mip_levels - 1,
        forall|i: int|
            0 <= i < chain@.len() ==> #[trigger] chain@[i] == (MipBlit {
                level: (i + 1) as u32,
                src_width: spec_mip_dim(width as nat, i as nat) as u32,
                src_height: spec_mip_dim(height as nat, i as nat) as u32,
                dst_width: spec_mip_dim(width as nat, (i + 1) as nat) as u32,
                dst_height: spec_mip_dim(height as nat, (i + 1) as nat) as u32,
            }),
{
    let mut chain: Vec<MipBlit> = Vec::new();
    let mut mip_width = width;
    let mut mip_height = height;
    let mut level: u32 = 1;
    while level < mip_levels
        invariant
            1 <= level <= mip_levels,
            1 <= mip_width,
            1 <= mip_height,
            mip_width == spec_mip_dim(width as nat, (level - 1) as nat),
            mip_height == spec_mip_dim(height as nat, (level - 1) as nat),
            chain@.len() == level - 1,
            forall|i: int|
                0 <= i < chain@.len() ==> #[trigger] chain@[i] == (MipBlit {
                    level: (i + 1) as u32,
                    src_width: spec_mip_dim(width as nat, i as nat) as u32,
                    src_height: spec_mip_dim(height as nat, i as nat) as u32,
                    dst_width: spec_mip_dim(width as nat, (i + 1) as nat) as u32,
                    dst_height: spec_mip_dim(height as nat, (i + 1) as nat) as u32,
                }),
        decreases mip_levels - level,
    {
        let next_width = if mip_width > 1 {
            mip_width / 2
        } else {
            mip_width
        };
        let next_height = if mip_height > 1 {
            mip_height / 2
        } else {
            mip_height
        };
        chain.push(
            MipBlit {
                level,
                src_width: mip_width,
                src_height: mip_height,
                dst_width: next_width,
                dst_height: next_height,
            },
        );
        mip_width = next_width;
        mip_height = next_height;
        level = level + 1;
    }
    chain
}

/// The image layouts the renderer transitions between or renders into.
#[derive(Debug, Clone, Copy, PartialEq, Eq, Structural)]
pub enum ImageLayout {
    Undefined,
    TransferDst,
    ShaderReadOnly,
    DepthStencilAttachment,
    ColorAttachment,
    PresentSrc,
}

/// Access flag: transfer writes.
pub const ACCESS_TRANSFER_WRITE: u32 = 0x1000;

/// Access flag: shader reads.
pub const ACCESS_SHADER_READ: u32 = 0x20;

/// Access flag: depth/stencil attachment reads.
pub const ACCESS_DEPTH_STENCIL_READ: u32 = 0x200;

/// Access flag: depth/stencil attachment writes.
pub const ACCESS_DEPTH_STENCIL_WRITE: u32 = 0x400;

/// Access flag: color attachment reads.
pub const ACCESS_COLOR_ATTACHMENT_READ: u32 = 0x80;

/// Access flag: color attachment writes.
pub const ACCESS_COLOR_ATTACHMENT_WRITE: u32 = 0x100;

/// Pipeline stage: top of pipe.
pub const STAGE_TOP_OF_PIPE: u32 = 0x1;

/// Pipeline stage: transfer.
pub const STAGE_TRANSFER: u32 = 0x1000;

/// Pipeline stage: fragment shader.
pub const STAGE_FRAGMENT_SHADER: u32 = 0x80;

/// Pipeline stage: early fragment tests.
pub const STAGE_EARLY_FRAGMENT_TESTS: u32 = 0x100;

/// Pipeline stage: color attachment output.
pub const STAGE_COLOR_ATTACHMENT_OUTPUT: u32 = 0x400;

/// The source/destination access masks and pipeline stages of one image
/// layout transition barrier.
#[derive(Debug, Clone, Copy, PartialEq, Eq, Structural)]
pub struct BarrierMasks {
    pub src_access: u32,
    pub dst_access: u32,
    pub src_stage: u32,
    pub dst_stage: u32,
}

/// The barrier masks of the supported layout transitions. Transitions the
/// renderer never performs have no masks; attempting one is a programming
/// error and the caller aborts.
pub fn barrier_masks(old_layout: ImageLayout, new_layout: ImageLayout) -> (r: Option<BarrierMasks>)
    ensures
        old_layout == ImageLayout::Undefined && new_layout == ImageLayout::TransferDst ==> r
            == Some(
            BarrierMasks {
                src_access: 0,
                dst_access: ACCESS_TRANSFER_WRITE,
                src_stage: STAGE_TOP_OF_PIPE,
                dst_stage: STAGE_TRANSFER,
            },
        ),
        old_layout == ImageLayout::TransferDst && new_layout == ImageLayout::ShaderReadOnly ==> r
            == Some(
            BarrierMasks {
                src_access: ACCESS_TRANSFER_WRITE,
                dst_access: ACCESS_SHADER_READ,
                src_stage: STAGE_TRANSFER,
                dst_stage: STAGE_FRAGMENT_SHADER,
            },
        ),
        old_layout == ImageLayout::Undefined && new_layout == ImageLayout::DepthStencilAttachment
            ==> r == Some(
            BarrierMasks {
                src_access: 0,
                dst_access: ACCESS_DEPTH_STENCIL_READ | ACCESS_DEPTH_STENCIL_WRITE,
                src_stage: STAGE_TOP_OF_PIPE,
                dst_stage: STAGE_EARLY_FRAGMENT_TESTS,
            },
        ),
        old_layout == ImageLayout::Undefined && new_layout == ImageLayout::ColorAttachment ==> r
            == Some(
            BarrierMasks {
                src_access: 0,
                dst_access: ACCESS_COLOR_ATTACHMENT_READ | ACCESS_COLOR_ATTACHMENT_WRITE,
                src_stage: STAGE_TOP_OF_PIPE,
                dst_stage: STAGE_COLOR_ATTACHMENT_OUTPUT,
            },
        ),
        r is Some <==> (old_layout == ImageLayout::Undefined && new_layout
            == ImageLayout::TransferDst) || (old_layout == ImageLayout::TransferDst && new_layout
            == ImageLayout::ShaderReadOnly) || (old_layout == ImageLayout::Undefined && new_layout
            == ImageLayout::DepthStencilAttachment) || (old_layout == ImageLayout::Undefined
            && new_layout == ImageLayout::ColorAttachment),
{
    match (old_layout, new_layout) {
        (ImageLayout::Undefined, ImageLayout::TransferDst) => Some(
            BarrierMasks {
                src_access: 0,
                dst_access: ACCESS_TRANSFER_WRITE,
                src_stage: STAGE_TOP_OF_PIPE,
                dst_stage: STAGE_TRANSFER,
            },
        ),
        (ImageLayout::TransferDst, ImageLayout::ShaderReadOnly) => Some(
            BarrierMasks {
                src_access: ACCESS_TRANSFER_WRITE,
                dst_access: ACCESS_SHADER_READ,
                src_stage: STAGE_TRANSFER,
                dst_stage: STAGE_FRAGMENT_SHADER,
            },
        ),
        (ImageLayout::Undefined, ImageLayout::DepthStencilAttachment) => Some(
            BarrierMasks {
                src_access: 0,
                dst_access: ACCESS_DEPTH_STENCIL_READ | ACCESS_DEPTH_STENCIL_WRITE,
                src_stage: STAGE_TOP_OF_PIPE,
                dst_stage: STAGE_EARLY_FRAGMENT_TESTS,
            },
        ),
        (ImageLayout::Undefined, ImageLayout::ColorAttachment) => Some(
            BarrierMasks {
                src_access: 0,
                dst_access: ACCESS_COLOR_ATTACHMENT_READ | ACCESS_COLOR_ATTACHMENT_WRITE,
                src_stage: STAGE_TOP_OF_PIPE,
                dst_stage: STAGE_COLOR_ATTACHMENT_OUTPUT,
            },
        ),
        _ => None,
    }
}

/// Image aspect flag: color.
pub const ASPECT_COLOR: u32 = 0x1;

/// Image aspect flag: depth.
pub const ASPECT_DEPTH: u32 = 0x2;

/// Image aspect flag: stencil.
pub const ASPECT_STENCIL: u32 = 0x4;

/// Format code of 32-bit float depth.
pub const FORMAT_D32_SFLOAT: u32 = 126;

/// Format code of 24-bit depth with 8-bit stencil.
pub const FORMAT_D24_UNORM_S8_UINT: u32 = 129;

/// Format code of 32-bit float depth with 8-bit stencil.
pub const FORMAT_D32_SFLOAT_S8_UINT: u32 = 130;

/// Whether the depth format carries a stencil component.
pub fn has_stencil_component(format: u32) -> (r: bool)
    ensures
        r == (format == FORMAT_D32_SFLOAT_S8_UINT || format == FORMAT_D24_UNORM_S8_UINT),
{
    format == FORMAT_D32_SFLOAT_S8_UINT || format == FORMAT_D24_UNORM_S8_UINT
}

/// The aspect mask of a layout transition barrier: depth (plus stencil where
/// the format has one) when transitioning into the depth/stencil attachment
/// layout, color otherwise.
pub fn barrier_aspect_mask(new_layout: ImageLayout, format: u32) -> (r: u32)
    ensures
        new_layout == ImageLayout::DepthStencilAttachment ==> r == if format
            == FORMAT_D32_SFLOAT_S8_UINT || format == FORMAT_D24_UNORM_S8_UINT {
            ASPECT_DEPTH | ASPECT_STENCIL
        } else {
            ASPECT_DEPTH
        },
        new_layout != ImageLayout::DepthStencilAttachment ==> r == ASPECT_COLOR,
{
    if matches!(new_layout, ImageLayout::DepthStencilAttachment) {
        if has_stencil_component(format) {
            ASPECT_DEPTH | ASPECT_STENCIL
        } else {
            ASPECT_DEPTH
        }
    } else {
        ASPECT_COLOR
    }
}

/// One buffer-to-image copy of a cubemap upload: the face index and the byte
/// offset of that face's pixels in the staging buffer.
#[derive(Debug, Clone, Copy, PartialEq, Eq, Structural)]
pub struct FaceCopy {
    pub face: u32,
    pub buffer_offset: u64,
}

/// The six buffer-to-image copies of a cubemap upload, one per face in face
/// order: the faces' RGBA8 pixels lie back to back in the staging buffer, so
/// face `i` starts at `i` times one face's byte size.
pub fn cubemap_face_copies(face_width: u32, face_height: u32) -> (r: Vec<FaceCopy>)
    requires
        4 * (face_width as int) * (face_height as int) * 6 < u64::MAX,
    ensures
        r@.len() == 6,
        forall|i: int|
            0 <= i < 6 ==> (#[trigger] r@[i]).face == i && r@[i].buffer_offset == i * 4 * (
            face_width as int) * (face_height as int),
{
    proof {
        assert(0 <= 4 * (face_width as int) * (face_height as int) && 4 * (face_width as int) * (
        face_height as int) <= 4 * (face_width as int) * (face_height as int) * 6) by (
        nonlinear_arith)
            requires
                face_width >= 0 && face_height >= 0,
        ;
    }
    let face_bytes: u64 = 4 * (face_width as u64) * (face_height as u64);
    let mut r: Vec<FaceCopy> = Vec::new();
    let mut i: u32 = 0;
    while i < 6
        invariant
            i <= 6,
            face_bytes == 4 * (face_width as int) * (face_height as int),
            6 * (face_bytes as int) < u64::MAX,
            r@.len() == i,
            forall|k: int|
                0 <= k < i ==> (#[trigger] r@[k]).face == k && r@[k].buffer_offset == k * (
                face_bytes as int),
        decreases 6 - i,
    {
        proof {
            assert((i as int) * (face_bytes as int) <= 6 * (face_bytes as int)) by (
            nonlinear_arith)
                requires
                    0 <= i <= 6 && face_bytes >= 0,
            ;
            assert(((i + 1) as int) * (face_bytes as int) == (i as int) * (face_bytes as int) + (
            face_bytes as int)) by (nonlinear_arith);
        }
        r.push(FaceCopy { face: i, buffer_offset: (i as u64) * face_bytes });
        i = i + 1;
    }
    proof {
        assert forall|k: int| 0 <= k < 6 implies (#[trigger] r@[k]).face == k && r@[k].buffer_offset
            == k * 4 * (face_width as int) * (face_height as int) by {
            assert(k * (face_bytes as int) == k * 4 * (face_width as int) * (face_height as int))
                by (nonlinear_arith)
                requires
                    face_bytes == 4 * (face_width as int) * (face_height as int),
            ;
        }
    }
    r
}

/// Checks that all faces of a cubemap share one size; returns that size, or
/// nothing when two faces disagree.
pub fn validate_cubemap_dims(dims: &Vec<(u32, u32)>) -> (r: Option<(u32, u32)>)
    requires
        dims@.len() > 0,
    ensures
        r is Some <==> forall|i: int| 0 <= i < dims@.len() ==> #[trigger] dims@[i] == dims@[0],
        r is Some ==> r.unwrap() == dims@[0],
{
    let first = dims[0];
    let n = dims.len();
    let mut k: usize = 0;
    while k < n
        invariant
            k <= n,
            n == dims@.len(),
            n > 0,
            first == dims@[0],
            forall|i: int| 0 <= i < k ==> #[trigger] dims@[i] == dims@[0],
        decreases n - k,
    {
        if dims[k].0 != first.0 || dims[k].1 != first.1 {
            return None;
        }
        k = k + 1;
    }
    Some(first)
}

} // verus!
